use vstd::prelude::*;
use crate::error_detail::{holds_key, ErrorDetail, ErrorDetailSet};
use crate::invariant_error::InvariantError;
use crate::strutil::push_char;
use crate::traits::Aggregate;
use vstd::string::StringExecFns;

verus! {

/// The failures one field accumulated: the field's key and, for each
/// broken rule, its message where the rule carries one.
pub struct FieldFailure {
    /// The failing field's key.
    pub field: String,
    /// One entry per broken rule; rules without a message contribute no
    /// detail.
    pub messages: Vec<Option<String>>,
}

/// A validation outcome's failures, field by field.
pub struct ValidationFailures {
    /// The per-field failures, in reporting order.
    pub failures: Vec<FieldFailure>,
}

/// `s` with every underscore replaced by a dash.
pub open spec fn dashed(s: Seq<char>) -> Seq<char> {
    Seq::new(
        s.len(),
        |i: int|
            if s[i] == '_' {
                '-'
            } else {
                s[i]
            },
    )
}

/// The detail key reported for a broken rule on `field` of the
/// aggregate whose type key is `tn`.
pub open spec fn failure_key(tn: Seq<char>, field: Seq<char>) -> Seq<char> {
    "error."@ + tn + ".invalid-"@ + dashed(field)
}

/// The detail message reported for a broken rule on `field` that
/// carries the message `m`.
pub open spec fn failure_message(field: Seq<char>, m: Seq<char>) -> Seq<char> {
    "'"@ + field + "' "@ + m
}

/// The (key, message) pairs one field's failures contribute, in order.
pub open spec fn msg_pairs(tn: Seq<char>, field: Seq<char>, msgs: Seq<Option<String>>) -> Seq<
    (Seq<char>, Seq<char>),
>
    decreases msgs.len(),
{
    if msgs.len() == 0 {
        Seq::empty()
    } else {
        msg_pairs(tn, field, msgs.drop_last()) + (match msgs.last() {
            Some(m) => seq![(failure_key(tn, field), failure_message(field, m@))],
            None => Seq::<(Seq<char>, Seq<char>)>::empty(),
        })
    }
}

/// The (key, message) pairs a failure list contributes, in order.
pub open spec fn failure_pairs(tn: Seq<char>, fails: Seq<FieldFailure>) -> Seq<
    (Seq<char>, Seq<char>),
>
    decreases fails.len(),
{
    if fails.len() == 0 {
        Seq::empty()
    } else {
        failure_pairs(tn, fails.drop_last()) + msg_pairs(
            tn,
            fails.last().field@,
            fails.last().messages@,
        )
    }
}

/// The key-to-message map a pair list settles into when, for each key,
/// the first message wins.
pub open spec fn pair_map(ps: Seq<(Seq<char>, Seq<char>)>) -> Map<Seq<char>, Seq<char>>
    decreases ps.len(),
{
    if ps.len() == 0 {
        Map::empty()
    } else {
        let m = pair_map(ps.drop_last());
        if m.dom().contains(ps.last().0) {
            m
        } else {
            m.insert(ps.last().0, ps.last().1)
        }
    }
}

/// The key-to-message map of a stored detail list.
pub open spec fn detail_map(s: Seq<ErrorDetail>) -> Map<Seq<char>, Seq<char>>
    decreases s.len(),
{
    if s.len() == 0 {
        Map::empty()
    } else {
        let m = detail_map(s.drop_last());
        if m.dom().contains(s.last().key_spec()) {
            m
        } else {
            m.insert(s.last().key_spec(), s.last().message_spec())
        }
    }
}

/// A detail list's map holds a key exactly when some detail carries it.
pub proof fn lemma_detail_map_domain(s: Seq<ErrorDetail>)
    ensures
        forall|k: Seq<char>| #[trigger] detail_map(s).dom().contains(k) <==> holds_key(s, k),
    decreases s.len(),
{
    if s.len() > 0 {
        lemma_detail_map_domain(s.drop_last());
        let m = detail_map(s.drop_last());
        assert forall|k: Seq<char>| #[trigger]
            detail_map(s).dom().contains(k) <==> holds_key(s, k) by {
            if detail_map(s).dom().contains(k) {
                if m.dom().contains(k) {
                    let i = choose|i: int|
                        0 <= i < s.drop_last().len() && s.drop_last()[i].key_spec() == k;
                    assert(s[i] == s.drop_last()[i]);
                    assert(holds_key(s, k));
                } else {
                    assert(k == s.last().key_spec());
                    assert(s[s.len() - 1].key_spec() == k);
                    assert(holds_key(s, k));
                }
            }
            if holds_key(s, k) {
                let i = choose|i: int| 0 <= i < s.len() && s[i].key_spec() == k;
                if i < s.len() - 1 {
                    assert(s.drop_last()[i] == s[i]);
                    assert(holds_key(s.drop_last(), k));
                    assert(m.dom().contains(k));
                    assert(detail_map(s).dom().contains(k));
                } else {
                    assert(s.last().key_spec() == k);
                    assert(detail_map(s).dom().contains(k));
                }
            }
        }
    }
}

fn build_failure_key(tn: &str, field: &str) -> (r: String)
    ensures
        r@ == failure_key(tn@, field@),
{
    let mut s = String::from_str("error.");
    s.append(tn);
    s.append(".invalid-");
    let ghost prefix = s@;
    let n = field.unicode_len();
    let mut k: usize = 0;
    while k < n
        invariant
            n == field@.len(),
            k <= n,
            s@ =~= prefix + dashed(field@).take(k as int),
        decreases n - k,
    {
        let c = field.get_char(k);
        if c == '_' {
            push_char(&mut s, '-');
        } else {
            push_char(&mut s, c);
        }
        proof {
            assert(dashed(field@).take(k + 1) =~= dashed(field@).take(k as int).push(
                dashed(field@)[k as int],
            ));
        }
        k = k + 1;
    }
    proof {
        assert(dashed(field@).take(n as int) =~= dashed(field@));
        assert(s@ =~= failure_key(tn@, field@));
    }
    s
}

fn build_failure_message(field: &str, m: &str) -> (r: String)
    ensures
        r@ == failure_message(field@, m@),
{
    let mut s = String::from_str("'");
    s.append(field);
    s.append("' ");
    s.append(m);
    proof {
        assert(s@ =~= failure_message(field@, m@));
    }
    s
}

/// Turns a failure list into an invariant error for the aggregate whose
/// type key is `aggregate_key`: each broken rule that carries a message
/// contributes one detail, keyed by the field (underscores dashed) under
/// the aggregate's error namespace, deduplicated by key with the first
/// message retained.
pub fn invariant_error_from_failures(aggregate_key: &str, failures: &ValidationFailures) -> (r:
    InvariantError)
    ensures
        detail_map(r.details()) == pair_map(
            failure_pairs(aggregate_key@, failures.failures@),
        ),
{
    let ghost tn = aggregate_key@;
    let ghost fails = failures.failures@;
    let mut details = ErrorDetailSet::new();
    let mut i: usize = 0;
    while i < failures.failures.len()
        invariant
            fails == failures.failures@,
            tn == aggregate_key@,
            i <= fails.len(),
            details.wf(),
            detail_map(details.view_spec()) == pair_map(failure_pairs(tn, fails.take(i as int))),
        decreases fails.len() - i,
    {
        let f = &failures.failures[i];
        let key = build_failure_key(aggregate_key, f.field.as_str());
        let ghost field = f.field@;
        let ghost msgs = f.messages@;
        let ghost done = failure_pairs(tn, fails.take(i as int));
        let mut j: usize = 0;
        while j < f.messages.len()
            invariant
                fails == failures.failures@,
                tn == aggregate_key@,
                0 <= i < fails.len(),
                f == &failures.failures[i as int],
                field == f.field@,
                msgs == f.messages@,
                key@ == failure_key(tn, field),
                done == failure_pairs(tn, fails.take(i as int)),
                j <= msgs.len(),
                details.wf(),
                detail_map(details.view_spec()) == pair_map(
                    done + msg_pairs(tn, field, msgs.take(j as int)),
                ),
            decreases msgs.len() - j,
        {
            let ghost pre_pairs = done + msg_pairs(tn, field, msgs.take(j as int));
            match &f.messages[j] {
                Some(m) => {
                    let message = build_failure_message(f.field.as_str(), m.as_str());
                    let d = ErrorDetail::new(key.clone(), message);
                    let ghost pre_view = details.view_spec();
                    proof {
                        lemma_detail_map_domain(pre_view);
                    }
                    details.insert(d);
                    proof {
                        let p = (failure_key(tn, field), failure_message(field, m@));
                        let post_pairs = pre_pairs.push(p);
                        assert(post_pairs.drop_last() =~= pre_pairs);
                        if holds_key(pre_view, d.key_spec()) {
                            assert(detail_map(details.view_spec()) == pair_map(post_pairs));
                        } else {
                            assert(details.view_spec() == pre_view.push(d));
                            assert(details.view_spec().drop_last() =~= pre_view);
                            assert(detail_map(details.view_spec()) == pair_map(post_pairs));
                        }
                        assert(msgs.take(j + 1).drop_last() =~= msgs.take(j as int));
                        assert(msgs.take(j + 1).last() == msgs[j as int]);
                        assert(done + msg_pairs(tn, field, msgs.take(j + 1)) =~= post_pairs);
                    }
                },
                None => {
                    proof {
                        assert(msgs.take(j + 1).drop_last() =~= msgs.take(j as int));
                        assert(msgs.take(j + 1).last() == msgs[j as int]);
                        assert(done + msg_pairs(tn, field, msgs.take(j + 1)) =~= pre_pairs);
                    }
                },
            }
            j = j + 1;
        }
        proof {
            assert(msgs.take(msgs.len() as int) =~= msgs);
            assert(fails.take(i + 1).drop_last() =~= fails.take(i as int));
            assert(fails.take(i + 1).last() == fails[i as int]);
        }
        i = i + 1;
    }
    proof {
        assert(fails.take(fails.len() as int) =~= fails);
    }
    InvariantError::new(details)
}

/// Maps a validation outcome's failures onto the domain's invariant
/// error, keyed under the aggregate's type key.
pub trait ResultValidation<T: Aggregate> {
    /// Carries a success through; turns failures into an invariant
    /// error.
    fn map_err_as_invariant_error(self) -> Result<T, InvariantError>;
}

impl<T: Aggregate> ResultValidation<T> for Result<T, ValidationFailures> {
    fn map_err_as_invariant_error(self) -> Result<T, InvariantError> {
        match self {
            Ok(t) => Ok(t),
            Err(v) => Err(invariant_error_from_failures(T::type_key(), &v)),
        }
    }
}

} // verus!
