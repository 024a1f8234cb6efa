use vstd::prelude::*;

verus! {

/// One structured `(key, message)` pair carried outward by a domain error.
///
/// Two details are considered the same exactly when their keys are equal;
/// the message plays no part in equality.
#[derive(Debug)]
pub struct ErrorDetail {
    key: String,
    message: String,
}

impl ErrorDetail {
    /// The key, as a sequence of characters.
    pub closed spec fn key_spec(&self) -> Seq<char> {
        self.key@
    }

    /// The message, as a sequence of characters.
    pub closed spec fn message_spec(&self) -> Seq<char> {
        self.message@
    }

    pub fn new(key: String, message: String) -> (r: ErrorDetail)
        ensures
            r.key_spec() == key@,
            r.message_spec() == message@,
    {
        ErrorDetail { key, message }
    }

    pub fn key(&self) -> (r: &str)
        ensures
            r@ == self.key_spec(),
    {
        self.key.as_str()
    }

    pub fn message(&self) -> (r: &str)
        ensures
            r@ == self.message_spec(),
    {
        self.message.as_str()
    }

    pub fn new_const(key: &str, message: &str) -> (r: ErrorDetail)
        ensures
            r.key_spec() == key@,
            r.message_spec() == message@,
    {
        ErrorDetail { key: key.to_owned(), message: message.to_owned() }
    }
}

impl Clone for ErrorDetail {
    fn clone(&self) -> (r: ErrorDetail)
        ensures
            r.key_spec() == self.key_spec(),
            r.message_spec() == self.message_spec(),
    {
        ErrorDetail { key: self.key.clone(), message: self.message.clone() }
    }
}

impl PartialEq for ErrorDetail {
    fn eq(&self, other: &ErrorDetail) -> (r: bool) {
        self.key == other.key
    }
}

impl vstd::std_specs::cmp::PartialEqSpecImpl for ErrorDetail {
    open spec fn obeys_eq_spec() -> bool {
        true
    }

    open spec fn eq_spec(&self, other: &ErrorDetail) -> bool {
        self.key_spec() == other.key_spec()
    }
}

/// Whether some detail in `s` carries the key `k`.
pub open spec fn holds_key(s: Seq<ErrorDetail>, k: Seq<char>) -> bool {
    exists|i: int| 0 <= i < s.len() && s[i].key_spec() == k
}

/// The sequence after offering `d` to a detail set with contents `s`:
/// a second detail under an already-present key is discarded, so the
/// first message stored under a key is the one retained.
pub open spec fn detail_insert(s: Seq<ErrorDetail>, d: ErrorDetail) -> Seq<ErrorDetail> {
    if holds_key(s, d.key_spec()) {
        s
    } else {
        s.push(d)
    }
}

/// A collection of details in which each key occurs at most once.
///
/// Insertion is first-write-wins: offering a detail whose key is already
/// present leaves the collection unchanged.
#[derive(Debug)]
pub struct ErrorDetailSet {
    items: Vec<ErrorDetail>,
}

impl ErrorDetailSet {
    /// The stored details, in insertion order.
    pub closed spec fn view_spec(&self) -> Seq<ErrorDetail> {
        self.items@
    }

    /// Every pair of distinct stored details carries distinct keys.
    pub open spec fn wf(&self) -> bool {
        forall|i: int, j: int|
            0 <= i < j < self.view_spec().len() ==> self.view_spec()[i].key_spec()
                != self.view_spec()[j].key_spec()
    }

    pub fn new() -> (r: ErrorDetailSet)
        ensures
            r.view_spec() == Seq::<ErrorDetail>::empty(),
            r.wf(),
    {
        ErrorDetailSet { items: Vec::new() }
    }

    pub fn len(&self) -> (r: usize)
        ensures
            r == self.view_spec().len(),
    {
        self.items.len()
    }

    pub fn contains_key(&self, key: &str) -> (r: bool)
        ensures
            r == holds_key(self.view_spec(), key@),
    {
        let mut j: usize = 0;
        while j < self.items.len()
            invariant
                j <= self.items@.len(),
                forall|i: int| 0 <= i < j ==> self.items@[i].key_spec() != key@,
            decreases self.items@.len() - j,
        {
            if self.items[j].key.as_str().eq(key) {
                return true;
            }
            j = j + 1;
        }
        false
    }

    /// Offers `d` to the set; a detail under an already-present key is a no-op.
    pub fn insert(&mut self, d: ErrorDetail)
        requires
            old(self).wf(),
        ensures
            final(self).view_spec() == detail_insert(old(self).view_spec(), d),
            final(self).wf(),
    {
        if !self.contains_key(d.key.as_str()) {
            self.items.push(d);
        }
    }

    /// The message stored under `key`, where the set holds that key.
    pub fn message_for(&self, key: &str) -> (r: Option<&str>)
        ensures
            match r {
                Some(m) => exists|i: int|
                    0 <= i < self.view_spec().len() && self.view_spec()[i].key_spec() == key@
                        && m@ == self.view_spec()[i].message_spec(),
                None => !holds_key(self.view_spec(), key@),
            },
    {
        let mut j: usize = 0;
        while j < self.items.len()
            invariant
                j <= self.items@.len(),
                forall|i: int| 0 <= i < j ==> self.items@[i].key_spec() != key@,
            decreases self.items@.len() - j,
        {
            if self.items[j].key.as_str().eq(key) {
                let m = self.items[j].message.as_str();
                proof {
                    let w = j as int;
                    assert(0 <= w < self.view_spec().len() && self.view_spec()[w].key_spec()
                        == key@ && m@ == self.view_spec()[w].message_spec());
                }
                return Some(m);
            }
            j = j + 1;
        }
        None
    }

    /// The stored details, in insertion order.
    pub fn details(&self) -> (r: &Vec<ErrorDetail>)
        ensures
            r@ == self.view_spec(),
    {
        &self.items
    }
}

/// Offering two details under one key stores only the first: the second
/// insertion leaves the collection exactly as the first left it.
pub proof fn lemma_detail_insert_first_write_wins(
    s: Seq<ErrorDetail>,
    d1: ErrorDetail,
    d2: ErrorDetail,
)
    requires
        d2.key_spec() == d1.key_spec(),
    ensures
        detail_insert(detail_insert(s, d1), d2) == detail_insert(s, d1),
{
    let s1 = detail_insert(s, d1);
    if holds_key(s, d1.key_spec()) {
        assert(s1 == s);
    } else {
        assert(s1[s.len() as int] == d1);
        assert(holds_key(s1, d2.key_spec()));
    }
}

/// Offering one detail to an empty collection stores exactly that detail.
pub proof fn lemma_detail_insert_into_empty(d: ErrorDetail)
    ensures
        detail_insert(Seq::<ErrorDetail>::empty(), d) =~= seq![d],
{
}

} // verus!
