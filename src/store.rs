use vstd::prelude::*;

verus! {

/// One session: a client token and the upstream identity resolved for it.
pub struct SessionEntry {
    pub token: String,
    pub ocid: String,
}

/// The process-wide credentials: the upstream key, fixed at construction,
/// and the map from session tokens to upstream identities. Entries are only
/// ever added or overwritten.
pub struct CredentialStore {
    key: String,
    sessions: Vec<SessionEntry>,
    ids: Ghost<Map<Seq<char>, Seq<char>>>,
}

impl View for CredentialStore {
    type V = Map<Seq<char>, Seq<char>>;

    /// The session map: token text to identity text.
    closed spec fn view(&self) -> Map<Seq<char>, Seq<char>> {
        self.ids@
    }
}

impl CredentialStore {
    /// The tokens in `sessions` are distinct and `ids` holds exactly them,
    /// each mapped to its entry's identity.
    pub closed spec fn wf(&self) -> bool {
        &&& forall|i: int, j: int|
            0 <= i < j < self.sessions@.len() ==> (#[trigger] self.sessions@[i]).token@
                != (#[trigger] self.sessions@[j]).token@
        &&& forall|i: int|
            0 <= i < self.sessions@.len() ==> #[trigger] self.ids@.contains_key(self.sessions@[i].token@)
                && self.ids@[self.sessions@[i].token@] == self.sessions@[i].ocid@
        &&& forall|k: Seq<char>|
            #[trigger] self.ids@.contains_key(k) ==> exists|i: int|
                0 <= i < self.sessions@.len() && #[trigger] self.sessions@[i].token@ == k
    }

    /// The upstream key, as text.
    pub closed spec fn key_view(&self) -> Seq<char> {
        self.key@
    }

    /// A store with the given upstream key and no sessions.
    pub fn new(key: String) -> (r: CredentialStore)
        ensures
            r.wf(),
            r@ == Map::<Seq<char>, Seq<char>>::empty(),
            r.key_view() == key@,
    {
        CredentialStore { key, sessions: Vec::new(), ids: Ghost(Map::empty()) }
    }

    /// The upstream key.
    pub fn api_key(&self) -> (r: &str)
        ensures
            r@ == self.key_view(),
    {
        self.key.as_str()
    }

    fn find(&self, token: &String) -> (r: Option<usize>)
        requires
            self.wf(),
        ensures
            match r {
                Some(i) => i < self.sessions@.len() && self.sessions@[i as int].token@ == token@,
                None => !self@.contains_key(token@),
            },
    {
        let mut i: usize = 0;
        while i < self.sessions.len()
            invariant
                self.wf(),
                i <= self.sessions@.len(),
                forall|j: int| 0 <= j < i ==> self.sessions@[j].token@ != token@,
            decreases self.sessions@.len() - i,
        {
            if self.sessions[i].token == *token {
                return Some(i);
            }
            i = i + 1;
        }
        None
    }

    /// The identity resolved for `token`, if any.
    pub fn get_identity(&self, token: &String) -> (r: Option<String>)
        requires
            self.wf(),
        ensures
            r.is_some() == self@.contains_key(token@),
            r.is_some() ==> r.unwrap()@ == self@[token@],
    {
        match self.find(token) {
            Some(i) => {
                assert(self.ids@.contains_key(self.sessions@[i as int].token@));
                Some(self.sessions[i].ocid.clone())
            },
            None => None,
        }
    }

    /// Records `identity` for `token`, replacing any earlier one.
    pub fn set_identity(&mut self, token: String, identity: String)
        requires
            old(self).wf(),
        ensures
            final(self).wf(),
            final(self)@ == old(self)@.insert(token@, identity@),
            final(self).key_view() == old(self).key_view(),
    {
        let ghost t = token@;
        let ghost v = identity@;
        let ghost pos: int;
        match self.find(&token) {
            Some(i) => {
                self.sessions.set(i, SessionEntry { token, ocid: identity });
                proof {
                    pos = i as int;
                }
            },
            None => {
                self.sessions.push(SessionEntry { token, ocid: identity });
                proof {
                    pos = self.sessions@.len() - 1;
                }
            },
        }
        self.ids = Ghost(self.ids@.insert(t, v));
        assert(self.sessions@[pos].token@ == t);
        assert forall|k: Seq<char>| #[trigger] self.ids@.contains_key(k) implies exists|i: int|
            0 <= i < self.sessions@.len() && #[trigger] self.sessions@[i].token@ == k by {
            if k != t {
                let i = choose|i: int|
                    0 <= i < old(self).sessions@.len() && #[trigger] old(self).sessions@[i].token@ == k;
                assert(self.sessions@[i].token@ == k);
            }
        }
    }
}

} // verus!
