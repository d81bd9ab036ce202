use vstd::prelude::*;

verus! {

/// Whether some header carries `name`.
pub open spec fn has_header(s: Seq<(String, String)>, name: Seq<char>) -> bool {
    exists|i: int| 0 <= i < s.len() && s[i].0@ == name
}

/// The first position that carries `name` (the length of `s` if none does).
pub open spec fn header_index(s: Seq<(String, String)>, name: Seq<char>) -> int
    decreases s.len(),
{
    if s.len() == 0 {
        0
    } else if s[0].0@ == name {
        0
    } else {
        1 + header_index(s.drop_first(), name)
    }
}

/// The value of the first header carrying `name`, if any: point lookup
/// answers the first match in delivery order.
pub open spec fn first_value(s: Seq<(String, String)>, name: Seq<char>) -> Option<Seq<char>> {
    if has_header(s, name) {
        Some(s[header_index(s, name)].1@)
    } else {
        None
    }
}

pub proof fn lemma_header_index(s: Seq<(String, String)>, name: Seq<char>)
    requires
        has_header(s, name),
    ensures
        ({
            let i = header_index(s, name);
            &&& 0 <= i < s.len()
            &&& s[i].0@ == name
            &&& forall|j: int| 0 <= j < i ==> s[j].0@ != name
        }),
    decreases s.len(),
{
    if s.len() == 0 {
    } else if s[0].0@ == name {
    } else {
        let k = choose|k: int| 0 <= k < s.len() && s[k].0@ == name;
        assert(s.drop_first()[k - 1] == s[k]);
        lemma_header_index(s.drop_first(), name);
        let i = header_index(s, name);
        assert(s[i] == s.drop_first()[i - 1]);
        assert forall|j: int| 0 <= j < i implies s[j].0@ != name by {
            if j >= 1 {
                assert(s.drop_first()[j - 1] == s[j]);
            }
        }
    }
}

/// An ordered sequence of (name, value) pairs as one stream event delivers
/// it: names are expected case-normalized by the host, duplicate names are
/// preserved in delivery order.
pub struct Headers {
    pub entries: Vec<(String, String)>,
}

impl Headers {
    /// Creates an empty header list.
    pub fn new() -> (r: Headers)
        ensures
            r.entries@ =~= Seq::<(String, String)>::empty(),
    {
        Headers { entries: Vec::new() }
    }

    /// Appends one (name, value) pair, after any already delivered.
    pub fn push(&mut self, name: String, value: String)
        ensures
            final(self).entries@ =~= old(self).entries@.push((name, value)),
    {
        self.entries.push((name, value));
    }

    /// How many pairs were delivered.
    pub fn len(&self) -> (n: usize)
        ensures
            n == self.entries@.len(),
    {
        self.entries.len()
    }

    /// The value of the first header carrying `name`, or `None`.
    pub fn get(&self, name: &str) -> (r: Option<&String>)
        ensures
            r is Some <==> has_header(self.entries@, name@),
            r matches Some(v) ==> Some(v@) == first_value(self.entries@, name@),
    {
        let owned = name.to_owned();
        let n = self.entries.len();
        let mut i: usize = 0;
        while i < n
            invariant
                n == self.entries@.len(),
                owned@ == name@,
                i <= n,
                forall|j: int| 0 <= j < i ==> self.entries@[j].0@ != name@,
            decreases n - i,
        {
            if self.entries[i].0 == owned {
                proof {
                    lemma_header_index(self.entries@, name@);
                }
                return Some(&self.entries[i].1);
            }
            i = i + 1;
        }
        None
    }
}

} // verus!
