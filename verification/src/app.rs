//! The application context: the verification token the dispatcher
//! compares, the chat API token, and the data-root path. It is threaded
//! explicitly into every call; loading it from a settings file happens
//! outside the library.

use vstd::prelude::*;

use vstd::string::StrSliceExecFns;

verus! {

/// The context of one running instance.
pub struct App {
    pub verification_token: String,
    pub api_token: String,
    pub data_path: String,
}

impl App {
    /// Whether a request's token is the configured verification token.
    pub fn verify(&self, token: &str) -> (r: bool)
        ensures
            r == (token@ == self.verification_token@),
    {
        let t = self.verification_token.as_str();
        let mut i: usize = 0;
        let tl = token.unicode_len();
        let vl = t.unicode_len();
        if tl != vl {
            proof {
                assert(token@ != self.verification_token@);
            }
            return false;
        }
        while i < tl
            invariant
                i <= tl,
                tl == token@.len(),
                vl == t@.len(),
                t@ == self.verification_token@,
                tl == vl,
                forall|j: int| 0 <= j < i ==> token@[j] == t@[j],
            decreases tl - i,
        {
            if token.get_char(i) != t.get_char(i) {
                proof {
                    assert(token@[i as int] != self.verification_token@[i as int]);
                }
                return false;
            }
            i = i + 1;
        }
        proof {
            assert(token@ =~= self.verification_token@);
        }
        true
    }
}

} // verus!
