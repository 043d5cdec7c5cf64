//! Soulbound-token registry: non-transferable attribute tokens issued to
//! users, queried by user and attribute.

use vstd::prelude::*;
use crate::text::str_eq;

verus! {

/// One issued token: an attribute bound to a user by an issuer.
#[derive(Debug)]
pub struct SBT {
    pub user: String,
    pub attribute: String,
    pub issuer: String,
}

impl Clone for SBT {
    fn clone(&self) -> (r: SBT)
        ensures
            r == *self,
    {
        SBT {
            user: self.user.clone(),
            attribute: self.attribute.clone(),
            issuer: self.issuer.clone(),
        }
    }
}

/// All issued tokens, in issue order.
pub struct SBTRegistry {
    tokens: Vec<SBT>,
}

impl SBTRegistry {
    /// The issued tokens, in issue order.
    pub closed spec fn tokens_seq(self) -> Seq<SBT> {
        self.tokens@
    }

    /// Some token binds this attribute to this user.
    pub open spec fn spec_has(self, user: Seq<char>, attribute: Seq<char>) -> bool {
        exists|i: int|
            0 <= i < self.tokens_seq().len() && (#[trigger] self.tokens_seq()[i]).user@ == user
                && self.tokens_seq()[i].attribute@ == attribute
    }

    /// An empty registry.
    pub fn new() -> (r: SBTRegistry)
        ensures
            r.tokens_seq() == Seq::<SBT>::empty(),
    {
        let r = SBTRegistry { tokens: Vec::new() };
        proof {
            assert(r.tokens@ =~= Seq::<SBT>::empty());
        }
        r
    }

    /// Issue a token: append it to the registry.
    pub fn issue(&mut self, user: String, attribute: String, issuer: String)
        ensures
            final(self).tokens_seq() == old(self).tokens_seq().push(
                SBT { user, attribute, issuer },
            ),
    {
        let sbt = SBT { user, attribute, issuer };
        self.tokens.push(sbt);
    }

    /// Whether this user holds a token for this attribute.
    pub fn has(&self, user: &str, attribute: &str) -> (r: bool)
        ensures
            r == self.spec_has(user@, attribute@),
    {
        let n = self.tokens.len();
        for i in 0..n
            invariant
                n == self.tokens@.len(),
                forall|j: int|
                    0 <= j < i ==> !((#[trigger] self.tokens@[j]).user@ == user@
                        && self.tokens@[j].attribute@ == attribute@),
        {
            if str_eq(self.tokens[i].user.as_str(), user) && str_eq(
                self.tokens[i].attribute.as_str(),
                attribute,
            ) {
                proof {
                    assert((#[trigger] self.tokens_seq()[i as int]).user@ == user@
                        && self.tokens_seq()[i as int].attribute@ == attribute@);
                }
                return true;
            }
        }
        false
    }

    /// The tokens issued to one user, in issue order.
    #[verifier::loop_isolation(false)]
    pub fn tokens_for(&self, user: &str) -> (r: Vec<SBT>)
        ensures
            r@ == self.tokens_seq().filter(|s: SBT| s.user@ == user@),
    {
        let ghost pred = |s: SBT| s.user@ == user@;
        let mut r: Vec<SBT> = Vec::new();
        let n = self.tokens.len();
        proof {
            reveal(Seq::filter);
            assert(r@ =~= self.tokens@.subrange(0, 0).filter(pred));
        }
        for i in 0..n
            invariant
                n == self.tokens@.len(),
                r@ == self.tokens@.subrange(0, i as int).filter(pred),
        {
            proof {
                reveal(Seq::filter);
                let prefix = self.tokens@.subrange(0, i + 1);
                assert(prefix.drop_last() =~= self.tokens@.subrange(0, i as int));
                assert(prefix.last() == self.tokens@[i as int]);
                assert(pred(self.tokens@[i as int]) == (self.tokens@[i as int].user@ == user@));
                if pred(self.tokens@[i as int]) {
                    assert(prefix.filter(pred) =~= self.tokens@.subrange(0, i as int).filter(
                        pred,
                    ).push(self.tokens@[i as int]));
                } else {
                    assert(prefix.filter(pred) =~= self.tokens@.subrange(0, i as int).filter(
                        pred,
                    ));
                }
            }
            if str_eq(self.tokens[i].user.as_str(), user) {
                r.push(self.tokens[i].clone());
            }
        }
        proof {
            assert(self.tokens@.subrange(0, n as int) =~= self.tokens@);
        }
        r
    }

    /// The issued tokens, for bulk export.
    pub fn tokens(&self) -> (r: &Vec<SBT>)
        ensures
            r@ == self.tokens_seq(),
    {
        &self.tokens
    }
}

} // verus!
