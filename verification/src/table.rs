//! The rule table: an append-only collection of mounted rules, looked up by
//! exact path match in insertion order.

use vstd::prelude::*;

use crate::rule::Rule;

verus! {

/// Why mounting a rule was refused. Raised synchronously to the caller of
/// `mount`, never deferred to request time.
#[derive(Clone, Copy, Debug, PartialEq, Eq, Structural)]
pub enum ValidationError {
    /// The rule configures neither a status nor a payload.
    InvalidRule,
}

/// The first rule in `rules`, in insertion order, whose path equals `path`
/// exactly — no prefix or wildcard matching. When several rules share a path,
/// the first mounted one wins.
pub open spec fn spec_first_match(rules: Seq<Rule>, path: Seq<char>) -> Option<Rule>
    decreases rules.len(),
{
    if rules.len() == 0 {
        None
    } else if rules[0].path@ == path {
        Some(rules[0])
    } else {
        spec_first_match(rules.drop_first(), path)
    }
}

/// The collection of mounted rules. It only ever grows: rules are appended by
/// `mount` and scanned by `find`, and a mounted rule is never mutated.
#[derive(Debug)]
pub struct RuleTable {
    rules: Vec<Rule>,
}

impl View for RuleTable {
    type V = Seq<Rule>;

    /// The mounted rules, in insertion order.
    closed spec fn view(&self) -> Seq<Rule> {
        self.rules@
    }
}

impl RuleTable {
    /// Every mounted rule respects the machine bound of the wire framing.
    pub open spec fn spec_wf(self) -> bool {
        forall|i: int| 0 <= i < self@.len() ==> (#[trigger] self@[i]).spec_wf()
    }

    /// An empty table.
    pub fn new() -> (t: RuleTable)
        ensures
            t@ == Seq::<Rule>::empty(),
            t.spec_wf(),
    {
        let t = RuleTable { rules: Vec::new() };
        proof {
            assert(t@ =~= Seq::<Rule>::empty());
        }
        t
    }

    /// Append `rule` if it is valid — it configures a status, a payload, or
    /// both — else fail with [`ValidationError::InvalidRule`] and leave the
    /// table unchanged.
    pub fn mount(&mut self, rule: Rule) -> (r: Result<(), ValidationError>)
        requires
            rule.spec_wf(),
        ensures
            old(self).spec_wf() ==> final(self).spec_wf(),
            rule.spec_is_valid() ==> r is Ok && final(self)@ == old(self)@.push(rule),
            !rule.spec_is_valid() ==> r == Result::<(), ValidationError>::Err(
                ValidationError::InvalidRule,
            ) && final(self)@ == old(self)@,
    {
        if !rule.is_valid() {
            return Err(ValidationError::InvalidRule);
        }
        self.rules.push(rule);
        proof {
            if old(self).spec_wf() {
                assert forall|i: int| 0 <= i < self@.len() implies (
                #[trigger] self@[i]).spec_wf() by {
                    if i < old(self)@.len() {
                        assert(self@[i] == old(self)@[i]);
                    } else {
                        assert(self@[i] == rule);
                    }
                }
            }
        }
        Ok(())
    }

    /// How many rules have been mounted.
    pub fn len(&self) -> (n: usize)
        ensures
            n == self@.len(),
    {
        self.rules.len()
    }

    /// Scan the mounted rules in insertion order and return the first whose
    /// path equals `path` exactly, or nothing when no rule matches.
    pub fn find(&self, path: &String) -> (r: Option<&Rule>)
        ensures
            match r {
                Some(rule) => spec_first_match(self@, path@) == Some(*rule),
                None => spec_first_match(self@, path@) is None,
            },
    {
        let n: usize = self.rules.len();
        let mut i: usize = 0;
        proof {
            assert(self@.skip(0) =~= self@);
        }
        while i < n
            invariant
                n == self@.len(),
                i <= n,
                spec_first_match(self@, path@) == spec_first_match(
                    self@.skip(i as int),
                    path@,
                ),
            decreases n - i,
        {
            if self.rules[i].path == *path {
                proof {
                    assert(self@.skip(i as int)[0] == self@[i as int]);
                }
                return Some(&self.rules[i]);
            }
            proof {
                assert(self@.skip(i as int).drop_first() =~= self@.skip(i as int + 1));
            }
            i += 1;
        }
        proof {
            assert(self@.skip(n as int) =~= Seq::<Rule>::empty());
        }
        None
    }
}

/// What a successful lookup hands back: the first match for `path` bears
/// `path` itself and is one of the mounted rules; and the lookup misses
/// exactly when no mounted rule bears `path`.
pub proof fn lemma_first_match_properties(rules: Seq<Rule>, path: Seq<char>)
    ensures
        spec_first_match(rules, path) matches Some(r) ==> r.path@ == path && rules.contains(r),
        (spec_first_match(rules, path) is None) <==> (forall|i: int|
            0 <= i < rules.len() ==> (#[trigger] rules[i]).path@ != path),
    decreases rules.len(),
{
    if rules.len() > 0 {
        if rules[0].path@ == path {
        } else {
            lemma_first_match_properties(rules.drop_first(), path);
            if spec_first_match(rules.drop_first(), path) is Some {
                let r = spec_first_match(rules.drop_first(), path).unwrap();
                assert(rules.drop_first().contains(r));
                let j = choose|j: int|
                    0 <= j < rules.drop_first().len() && rules.drop_first()[j] == r;
                assert(rules[j + 1] == r);
            }
            assert forall|i: int|
                0 <= i < rules.len() && spec_first_match(rules, path) is None implies (
            #[trigger] rules[i]).path@ != path by {
                if i > 0 {
                    assert(rules.drop_first()[i - 1] == rules[i]);
                }
            }
            if forall|i: int| 0 <= i < rules.len() ==> (#[trigger] rules[i]).path@ != path {
                assert forall|i: int| 0 <= i < rules.drop_first().len() implies (
                #[trigger] rules.drop_first()[i]).path@ != path by {
                    assert(rules.drop_first()[i] == rules[i + 1]);
                }
            }
        }
    }
}

} // verus!
