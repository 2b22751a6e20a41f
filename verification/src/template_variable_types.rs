//! How list values are handed to templates as text.
use vstd::prelude::*;
use crate::interactive::LIST_SEP_PRETTY;
use crate::text::{join_with, texts};

verus! {

/// The items, each in double quotes, separated by `, `, in brackets.
pub open spec fn rendered_list(items: Seq<Seq<char>>) -> Seq<char> {
    "["@ + join_with(items.map_values(|i: Seq<char>| "\""@ + i + "\""@), ", "@) + "]"@
}

/// Values that a template sees as a single string.
pub trait ArrayToTemplateString {
    spec fn items(&self) -> Seq<Seq<char>>;

    fn render_as_string(&self) -> (r: String)
        ensures
            r@ == rendered_list(self.items()),
    ;
}

impl ArrayToTemplateString for Vec<String> {
    open spec fn items(&self) -> Seq<Seq<char>> {
        texts(self@)
    }

    fn render_as_string(&self) -> (r: String) {
        let ghost quoted = texts(self@).map_values(|i: Seq<char>| "\""@ + i + "\""@);
        let mut r = String::new();
        r.append("[");
        let ghost head = r@;
        let mut i: usize = 0;
        while i < self.len()
            invariant
                i <= self.len(),
                quoted == texts(self@).map_values(|i: Seq<char>| "\""@ + i + "\""@),
                r@ == head + join_with(quoted.subrange(0, i as int), ", "@),
            decreases self.len() - i,
        {
            let ghost pre = quoted.subrange(0, i as int);
            let ghost post = quoted.subrange(0, i + 1);
            assert(post.drop_last() =~= pre);
            if i > 0 {
                r.append(LIST_SEP_PRETTY);
            }
            r.append("\"");
            r.append(self[i].as_str());
            r.append("\"");
            i = i + 1;
            proof {
                assert(post.last() == "\""@ + self@[i - 1]@ + "\""@);
                if i == 1 {
                    assert(join_with(pre, ", "@) =~= Seq::<char>::empty());
                }
            }
            assert(r@ =~= head + join_with(post, ", "@));
        }
        assert(quoted.subrange(0, i as int) =~= quoted);
        r.append("]");
        r
    }
}

} // verus!
