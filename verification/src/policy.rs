use vstd::prelude::*;

verus! {

/// The loaded policy: the allow-list of user names that may escalate, and the
/// audit log path, if any. If the path is absent, auditing is a no-op.
pub struct Policy {
    pub superusers: Vec<String>,
    pub log_file: Option<String>,
}

/// Whether `user` appears verbatim (case-sensitive, exact match) in the
/// allow-list `list`.
pub open spec fn allowed(list: Seq<Seq<char>>, user: Seq<char>) -> bool {
    list.contains(user)
}

impl Policy {
    /// The authorization guard: an exact, case-sensitive membership test of
    /// `user` against the allow-list. This is the single authorization gate
    /// of the pipeline.
    pub fn permits(&self, user: &String) -> (r: bool)
        ensures
            r == allowed(self.superusers.deep_view(), user@),
    {
        let n = self.superusers.len();
        let mut i: usize = 0;
        while i < n
            invariant
                n == self.superusers@.len(),
                i <= n,
                forall|j: int| 0 <= j < i ==> #[trigger] self.superusers@[j]@ != user@,
            decreases n - i,
        {
            let s: &String = &self.superusers[i];
            if *s == *user {
                assert(self.superusers.deep_view()[i as int] == user@);
                return true;
            }
            i += 1;
        }
        false
    }
}

} // verus!
