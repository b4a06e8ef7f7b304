//! An ordered list of header fields. Names compare without regard to ASCII
//! case, and a name may occur more than once.
use vstd::prelude::*;
use vstd::utf8::encode_utf8;

verus! {

/// Abstract value of a header list: its (name, value) pairs in insertion order.
pub type HeaderSeq = Seq<(Seq<char>, Seq<char>)>;

/// A byte with ASCII upper case letters mapped to lower case.
pub open spec fn fold_byte(b: u8) -> u8 {
    if 65 <= b && b <= 90 {
        (b + 32) as u8
    } else {
        b
    }
}

/// The bytes of a name as the wire carries them, with ASCII case folded.
pub open spec fn folded(name: Seq<char>) -> Seq<u8> {
    encode_utf8(name).map_values(|b: u8| fold_byte(b))
}

/// Two header names are the same name when they agree up to ASCII case.
pub open spec fn same_name(a: Seq<char>, b: Seq<char>) -> bool {
    folded(a) == folded(b)
}

/// Value of the first field named `name`, if any.
pub open spec fn lookup(hs: HeaderSeq, name: Seq<char>) -> Option<Seq<char>>
    decreases hs.len(),
{
    if hs.len() == 0 {
        None
    } else if same_name(hs[0].0, name) {
        Some(hs[0].1)
    } else {
        lookup(hs.drop_first(), name)
    }
}

/// Values of all fields named `name`, in insertion order.
pub open spec fn lookup_all(hs: HeaderSeq, name: Seq<char>) -> Seq<Seq<char>>
    decreases hs.len(),
{
    if hs.len() == 0 {
        Seq::empty()
    } else {
        let rest = lookup_all(hs.drop_last(), name);
        if same_name(hs.last().0, name) {
            rest.push(hs.last().1)
        } else {
            rest
        }
    }
}

/// Header lookup ignores ASCII case: two names that agree up to case find
/// the same first value and the same list of values.
pub proof fn lemma_lookup_ignores_case(hs: HeaderSeq, a: Seq<char>, b: Seq<char>)
    requires
        same_name(a, b),
    ensures
        lookup(hs, a) == lookup(hs, b),
        lookup_all(hs, a) == lookup_all(hs, b),
    decreases hs.len(),
{
    if hs.len() > 0 {
        lemma_lookup_ignores_case(hs.drop_first(), a, b);
        lemma_lookup_ignores_case(hs.drop_last(), a, b);
    }
}

/// Every field added under a name is found again under any spelling of that
/// name, duplicates included: the values come back in insertion order, and
/// a value's position among them is the number of earlier matching fields.
pub proof fn lemma_lookup_all_keeps_every_value(hs: HeaderSeq, i: int, name: Seq<char>)
    requires
        0 <= i < hs.len(),
        same_name(hs[i].0, name),
    ensures
        lookup_all(hs, name).len() > lookup_all(hs.subrange(0, i), name).len(),
        lookup_all(hs, name)[lookup_all(hs.subrange(0, i), name).len() as int] == hs[i].1,
    decreases hs.len(),
{
    if i == hs.len() - 1 {
        assert(hs.drop_last() =~= hs.subrange(0, i));
    } else {
        lemma_lookup_all_keeps_every_value(hs.drop_last(), i, name);
        assert(hs.drop_last().subrange(0, i) =~= hs.subrange(0, i));
    }
}

fn fold_ascii(b: u8) -> (r: u8)
    ensures
        r == fold_byte(b),
{
    if 65 <= b && b <= 90 {
        b + 32
    } else {
        b
    }
}

/// Whether two header names are equal up to ASCII case.
pub fn names_match(a: &str, b: &str) -> (r: bool)
    ensures
        r == same_name(a@, b@),
{
    let x = a.as_bytes();
    let y = b.as_bytes();
    if x.len() != y.len() {
        proof {
            assert(folded(a@).len() != folded(b@).len());
        }
        return false;
    }
    let mut i: usize = 0;
    while i < x.len()
        invariant
            x@ == encode_utf8(a@),
            y@ == encode_utf8(b@),
            x@.len() == y@.len(),
            i <= x@.len(),
            forall|j: int| 0 <= j < i ==> fold_byte(#[trigger] x@[j]) == fold_byte(y@[j]),
        decreases x@.len() - i,
    {
        if fold_ascii(x[i]) != fold_ascii(y[i]) {
            proof {
                assert(folded(a@)[i as int] != folded(b@)[i as int]);
            }
            return false;
        }
        i += 1;
    }
    proof {
        assert(folded(a@) =~= folded(b@));
    }
    true
}

/// Header fields in the order they were added.
pub struct HeaderMap {
    entries: Vec<(String, String)>,
}

impl View for HeaderMap {
    type V = HeaderSeq;

    closed spec fn view(&self) -> HeaderSeq {
        self.entries@.map_values(|e: (String, String)| (e.0@, e.1@))
    }
}

impl HeaderMap {
    pub fn new() -> (r: HeaderMap)
        ensures
            r@ == HeaderSeq::empty(),
    {
        let r = HeaderMap { entries: Vec::new() };
        proof {
            assert(r@ =~= HeaderSeq::empty());
        }
        r
    }

    /// Adds a field after all present ones; a field of the same name stays.
    pub fn append(&mut self, name: &str, value: &str)
        ensures
            final(self)@ == old(self)@.push((name@, value@)),
    {
        self.entries.push((name.to_owned(), value.to_owned()));
        proof {
            assert(self@ =~= old(self)@.push((name@, value@)));
        }
    }

    pub fn len(&self) -> (r: usize)
        ensures
            r == self@.len(),
    {
        self.entries.len()
    }

    /// The name and value of the field at position `i`.
    pub fn entry(&self, i: usize) -> (r: (&str, &str))
        requires
            i < self@.len(),
        ensures
            r.0@ == self@[i as int].0,
            r.1@ == self@[i as int].1,
    {
        let e = &self.entries[i];
        (e.0.as_str(), e.1.as_str())
    }

    /// Value of the first field whose name matches `name` up to ASCII case.
    pub fn get(&self, name: &str) -> (r: Option<&str>)
        ensures
            match r {
                Some(v) => lookup(self@, name@) == Some(v@),
                None => lookup(self@, name@) is None,
            },
    {
        let n = self.entries.len();
        let mut i: usize = 0;
        proof {
            assert(self@.subrange(0, n as int) =~= self@);
        }
        while i < n
            invariant
                n == self@.len(),
                i <= n,
                lookup(self@, name@) == lookup(self@.subrange(i as int, n as int), name@),
            decreases n - i,
        {
            let e = &self.entries[i];
            let ghost rest = self@.subrange(i as int, n as int);
            proof {
                assert(rest[0] == self@[i as int]);
            }
            if names_match(e.0.as_str(), name) {
                return Some(e.1.as_str());
            }
            proof {
                assert(rest.drop_first() =~= self@.subrange(i + 1, n as int));
            }
            i += 1;
        }
        None
    }

    /// Values of every field whose name matches `name` up to ASCII case, in
    /// the order they were added.
    pub fn get_all(&self, name: &str) -> (r: Vec<&str>)
        ensures
            r@.len() == lookup_all(self@, name@).len(),
            forall|k: int| 0 <= k < r@.len() ==> #[trigger] r@[k]@ == lookup_all(self@, name@)[k],
    {
        let n = self.entries.len();
        let mut out: Vec<&str> = Vec::new();
        let mut i: usize = 0;
        while i < n
            invariant
                n == self@.len(),
                i <= n,
                out@.len() == lookup_all(self@.subrange(0, i as int), name@).len(),
                forall|k: int|
                    0 <= k < out@.len() ==> #[trigger] out@[k]@ == lookup_all(
                        self@.subrange(0, i as int),
                        name@,
                    )[k],
            decreases n - i,
        {
            let e = &self.entries[i];
            let ghost next = self@.subrange(0, i + 1);
            proof {
                assert(next.drop_last() =~= self@.subrange(0, i as int));
                assert(next.last() == self@[i as int]);
            }
            if names_match(e.0.as_str(), name) {
                out.push(e.1.as_str());
            }
            i += 1;
        }
        proof {
            assert(self@.subrange(0, n as int) =~= self@);
        }
        out
    }
}

} // verus!
