//! The decisions of the code transformer: which methods of a type are instrumented, what
//! becomes of their opt-in markers, and how the frames of a rewritten body are named.

use vstd::prelude::*;

verus! {

/// Where the `module` field of the frames of a rewritten body comes from.
#[derive(Debug, Clone, PartialEq, Eq)]
pub enum ModuleName {
    /// The path of the enclosing module, known where the code is compiled: a free function.
    Path,
    /// The textual name of the type whose method it is.
    Type(String),
}

/// How every propagation point of one rewritten body names its frame.
#[derive(Debug, Clone, PartialEq, Eq)]
pub struct Site {
    pub func: String,
    pub module: ModuleName,
}

/// The site of a standalone function: its own name, and the module path.
pub fn function_site(name: String) -> (r: Site)
    ensures
        r.func@ == name@,
        r.module == ModuleName::Path,
{
    Site { func: name, module: ModuleName::Path }
}

/// The site of a method of the type named `owner`: the method's name, and the type's
/// name rather than a module path.
pub fn method_site(owner: String, method: String) -> (r: Site)
    ensures
        r.func@ == method@,
        r.module == ModuleName::Type(owner),
{
    Site { func: method, module: ModuleName::Type(owner) }
}

/// The items of `items` whose mark is false, in their order.
pub open spec fn unmarked<A>(items: Seq<A>, marks: Seq<bool>) -> Seq<A>
    decreases items.len(),
{
    if items.len() == 0 {
        seq![]
    } else {
        let rest = unmarked(items.drop_last(), marks.drop_last());
        if marks[items.len() - 1] {
            rest
        } else {
            rest.push(items.last())
        }
    }
}

/// Whether some item is marked.
pub open spec fn any_marked(marks: Seq<bool>) -> bool {
    exists|i: int| 0 <= i < marks.len() && marks[i]
}

/// Where nothing is marked, nothing is taken out.
pub proof fn lemma_unmarked_whole<A>(items: Seq<A>, marks: Seq<bool>)
    requires
        items.len() == marks.len(),
        !any_marked(marks),
    ensures
        unmarked(items, marks) == items,
    decreases items.len(),
{
    if items.len() > 0 {
        assert(!any_marked(marks.drop_last())) by {
            if any_marked(marks.drop_last()) {
                let j = choose|j: int| 0 <= j < marks.drop_last().len() && marks.drop_last()[j];
                assert(marks[j]);
            }
        }
        lemma_unmarked_whole(items.drop_last(), marks.drop_last());
        assert(!marks[items.len() - 1]);
        assert(items.drop_last().push(items.last()) =~= items);
    }
}

/// Each mark of what is kept is false, and as many as the items kept.
proof fn lemma_kept_marks<A>(items: Seq<A>, marks: Seq<bool>)
    requires
        items.len() == marks.len(),
    ensures
        unmarked(items, marks).len() == unmarked(marks, marks).len(),
        !any_marked(unmarked(marks, marks)),
    decreases items.len(),
{
    if items.len() > 0 {
        lemma_kept_marks(items.drop_last(), marks.drop_last());
        let rest = unmarked(marks.drop_last(), marks.drop_last());
        if !marks[items.len() - 1] {
            assert forall|j: int| 0 <= j < rest.push(false).len() implies !rest.push(false)[j] by {
                if j < rest.len() {
                    assert(!rest[j]);
                }
            }
        }
    }
}

/// Taking the opt-in markers out leaves none behind: the markers of what remains are all
/// false, so a second pass finds no marker and changes nothing.
pub proof fn lemma_strip_markers_idempotent<A>(attrs: Seq<A>, marks: Seq<bool>)
    requires
        attrs.len() == marks.len(),
    ensures
        !any_marked(unmarked(marks, marks)),
        unmarked(unmarked(attrs, marks), unmarked(marks, marks)) == unmarked(attrs, marks),
{
    lemma_kept_marks(attrs, marks);
    lemma_unmarked_whole(unmarked(attrs, marks), unmarked(marks, marks));
}

/// Takes every opt-in marker out of a method's attributes, `marks[i]` telling whether
/// `attrs[i]` is one, and says whether there was any. The other attributes keep their order.
pub fn strip_markers<A>(attrs: Vec<A>, marks: &Vec<bool>) -> (r: (Vec<A>, bool))
    requires
        attrs@.len() == marks@.len(),
    ensures
        r.0@ == unmarked(attrs@, marks@),
        r.1 == any_marked(marks@),
{
    let ghost all = attrs@;
    let mut rest = attrs;
    let mut kept: Vec<A> = Vec::new();
    let mut found = false;
    let mut i: usize = 0;
    while i < marks.len()
        invariant
            all.len() == marks@.len(),
            i <= marks@.len(),
            rest@ == all.subrange(i as int, all.len() as int),
            kept@ == unmarked(all.subrange(0, i as int), marks@.subrange(0, i as int)),
            found == (exists|j: int| 0 <= j < i && marks@[j]),
        decreases marks@.len() - i,
    {
        let a = rest.remove(0);
        proof {
            let next_items = all.subrange(0, i + 1);
            let next_marks = marks@.subrange(0, i + 1);
            assert(next_items.drop_last() =~= all.subrange(0, i as int));
            assert(next_marks.drop_last() =~= marks@.subrange(0, i as int));
            assert(rest@ =~= all.subrange(i + 1, all.len() as int));
        }
        if !marks[i] {
            kept.push(a);
        } else {
            found = true;
        }
        i = i + 1;
    }
    proof {
        assert(all.subrange(0, i as int) =~= all);
        assert(marks@.subrange(0, i as int) =~= marks@);
    }
    (kept, found)
}

/// What the transformer does with one method of the type named `owner`: its attributes
/// without the opt-in markers, and, where it opted in, the site its frames are named by.
/// A method without a marker is left as it is.
pub fn plan_method<A>(owner: &String, method: String, attrs: Vec<A>, marks: &Vec<bool>) -> (r: (
    Vec<A>,
    Option<Site>,
))
    requires
        attrs@.len() == marks@.len(),
    ensures
        any_marked(marks@) ==> r.0@ == unmarked(attrs@, marks@) && r.1 is Some && r.1->Some_0.func@
            == method@ && r.1->Some_0.module == ModuleName::Type(*owner),
        !any_marked(marks@) ==> r.0@ == attrs@ && r.1 is None,
{
    let (kept, found) = strip_markers(attrs, marks);
    proof {
        if !found {
            lemma_unmarked_whole(attrs@, marks@);
        }
    }
    if found {
        (kept, Some(method_site(owner.clone(), method)))
    } else {
        (kept, None)
    }
}

} // verus!
