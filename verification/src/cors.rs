//! The cross-origin policy that the HTTP layer is configured with.

use vstd::prelude::*;

verus! {

/// What other origins may do with the responses.
#[derive(Clone, Debug, PartialEq, Eq)]
pub struct CorsPolicy {
    /// The origin that may read responses; `*` for any.
    pub allow_origin: String,
    /// The request methods that other origins may use.
    pub allow_methods: Vec<String>,
    /// Whether requests from other origins may carry credentials.
    pub allow_credentials: bool,
}

/// The texts of a list of strings, in order.
pub open spec fn texts(items: Seq<String>) -> Seq<Seq<char>> {
    items.map_values(|item: String| item@)
}

/// The items in order, with a comma and a space between neighbours.
pub open spec fn comma_separated(items: Seq<Seq<char>>) -> Seq<char>
    decreases items.len(),
{
    if items.len() == 0 {
        Seq::empty()
    } else if items.len() == 1 {
        items[0]
    } else {
        comma_separated(items.drop_last()) + ", "@ + items.last()
    }
}

impl CorsPolicy {
    /// The policy of this service: any origin, the methods GET, POST and
    /// OPTIONS, no credentials.
    pub fn permissive() -> (policy: CorsPolicy)
        ensures
            policy.allow_origin@ == "*"@,
            texts(policy.allow_methods@) == seq!["GET"@, "POST"@, "OPTIONS"@],
            !policy.allow_credentials,
    {
        let mut allow_methods: Vec<String> = Vec::new();
        allow_methods.push("GET".to_owned());
        allow_methods.push("POST".to_owned());
        allow_methods.push("OPTIONS".to_owned());
        assert(texts(allow_methods@) =~= seq!["GET"@, "POST"@, "OPTIONS"@]);
        CorsPolicy { allow_origin: "*".to_owned(), allow_methods, allow_credentials: false }
    }

    /// The allowed methods as the value of one header.
    pub fn allow_methods_value(&self) -> (value: String)
        ensures
            value@ == comma_separated(texts(self.allow_methods@)),
    {
        let mut value = String::new();
        let mut i: usize = 0;
        while i < self.allow_methods.len()
            invariant
                i <= self.allow_methods@.len(),
                value@ == comma_separated(texts(self.allow_methods@).take(i as int)),
            decreases self.allow_methods@.len() - i,
        {
            let ghost all = texts(self.allow_methods@);
            if i > 0 {
                value.append(", ");
            }
            value.append(self.allow_methods[i].as_str());
            proof {
                let next = all.take(i as int + 1);
                assert(next.drop_last() =~= all.take(i as int));
                assert(next.last() == self.allow_methods@[i as int]@);
                if i == 0 {
                    assert(value@ =~= next[0]);
                }
            }
            i += 1;
        }
        assert(texts(self.allow_methods@).take(i as int) =~= texts(self.allow_methods@));
        value
    }
}

} // verus!
