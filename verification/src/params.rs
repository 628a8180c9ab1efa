//! The request's path parameters: an ordered list of name/value pairs, where
//! the first pair with a given name wins.

use vstd::prelude::*;

verus! {

/// The path parameters the invocation runtime extracted from one request.
pub struct PathParams {
    pub entries: Vec<(String, String)>,
}

impl View for PathParams {
    type V = Seq<(Seq<char>, Seq<char>)>;

    open spec fn view(&self) -> Seq<(Seq<char>, Seq<char>)> {
        Seq::new(self.entries@.len(), |i: int| (self.entries@[i].0@, self.entries@[i].1@))
    }
}

/// The value of the first pair whose name equals `key`, if any.
pub open spec fn first_value(params: Seq<(Seq<char>, Seq<char>)>, key: Seq<char>) -> Option<
    Seq<char>,
>
    decreases params.len(),
{
    if params.len() == 0 {
        None
    } else if params[0].0 == key {
        Some(params[0].1)
    } else {
        first_value(params.drop_first(), key)
    }
}

/// A prefix without a match does not change the first value found.
proof fn lemma_first_value_skip(params: Seq<(Seq<char>, Seq<char>)>, key: Seq<char>, i: int)
    requires
        0 <= i <= params.len(),
        forall|j: int| 0 <= j < i ==> params[j].0 != key,
    ensures
        first_value(params, key) == first_value(params.skip(i), key),
    decreases i,
{
    if i > 0 {
        lemma_first_value_skip(params, key, i - 1);
        assert(params.skip(i - 1)[0] == params[i - 1]);
        assert(params.skip(i - 1).drop_first() =~= params.skip(i));
    } else {
        assert(params.skip(0) =~= params);
    }
}

impl PathParams {
    /// An empty parameter list.
    pub fn new() -> (r: PathParams)
        ensures
            r@ =~= Seq::<(Seq<char>, Seq<char>)>::empty(),
    {
        PathParams { entries: Vec::new() }
    }

    /// Appends one name/value pair.
    pub fn push(&mut self, name: String, value: String)
        ensures
            final(self)@ =~= old(self)@.push((name@, value@)),
    {
        self.entries.push((name, value));
    }

    /// The value of the first pair named `name`, if any.
    pub fn first(&self, name: &str) -> (r: Option<String>)
        ensures
            match r {
                Some(v) => first_value(self@, name@) == Some(v@),
                None => first_value(self@, name@) is None,
            },
    {
        let key = name.to_owned();
        let n: usize = self.entries.len();
        let mut i: usize = 0;
        while i < n
            invariant
                n == self.entries.len(),
                0 <= i <= n,
                key@ == name@,
                forall|j: int| 0 <= j < i ==> self@[j].0 != name@,
            decreases n - i,
        {
            if self.entries[i].0 == key {
                proof {
                    lemma_first_value_skip(self@, name@, i as int);
                    assert(self@.skip(i as int)[0] == self@[i as int]);
                }
                return Some(self.entries[i].1.clone());
            }
            i += 1;
        }
        proof {
            lemma_first_value_skip(self@, name@, n as int);
            assert(self@.skip(n as int) =~= Seq::<(Seq<char>, Seq<char>)>::empty());
        }
        None
    }
}

} // verus!
