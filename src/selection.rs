//! Normalizing the indices chosen in the interactive template prompt.
use vstd::prelude::*;

verus! {

/// Index of the "default" entry of the prompt: it stands for the
/// TypeScript and Prettier templates together.
pub const DEFAULT_INDEX: usize = 0;

/// The indices of `s` other than the default marker, in their order.
pub open spec fn without_default(s: Seq<usize>) -> Seq<usize> {
    s.filter(|i: usize| i != DEFAULT_INDEX)
}

/// What a raw prompt selection stands for: the default marker alone
/// expands to TypeScript and Prettier; alongside other choices it is
/// dropped; a selection without it is kept as it is.
pub open spec fn normalized(s: Seq<usize>) -> Seq<usize> {
    if s == seq![DEFAULT_INDEX] {
        seq![1usize, 2usize]
    } else if s.contains(DEFAULT_INDEX) {
        without_default(s)
    } else {
        s
    }
}

/// Whatever was chosen, the normalized selection never holds the
/// default marker.
pub proof fn lemma_normalized_has_no_default(s: Seq<usize>)
    ensures
        !normalized(s).contains(DEFAULT_INDEX),
{
    if s == seq![DEFAULT_INDEX] {
        assert(seq![1usize, 2usize][0] != DEFAULT_INDEX && seq![1usize, 2usize][1] != DEFAULT_INDEX);
    } else if s.contains(DEFAULT_INDEX) {
        let f = without_default(s);
        assert forall|i: int| 0 <= i < f.len() implies f[i] != DEFAULT_INDEX by {
            s.lemma_filter_pred(|i: usize| i != DEFAULT_INDEX, i);
        }
    }
}

/// A selection without the default marker is kept exactly as it is.
pub proof fn lemma_normalize_keeps_explicit_choices(s: Seq<usize>)
    requires
        !s.contains(DEFAULT_INDEX),
    ensures
        normalized(s) == s,
{
    assert(seq![DEFAULT_INDEX][0] == DEFAULT_INDEX);
}

/// Whether `list` holds the default marker.
fn contains_default(list: &Vec<usize>) -> (r: bool)
    ensures
        r == list@.contains(DEFAULT_INDEX),
{
    let mut i: usize = 0;
    while i < list.len()
        invariant
            i <= list@.len(),
            forall|j: int| 0 <= j < i ==> list@[j] != DEFAULT_INDEX,
        decreases list@.len() - i,
    {
        if list[i] == DEFAULT_INDEX {
            return true;
        }
        i = i + 1;
    }
    false
}

/// `list` with every default marker removed, other indices kept in order.
fn remove_default(list: &Vec<usize>) -> (r: Vec<usize>)
    ensures
        r@ == without_default(list@),
{
    let mut r: Vec<usize> = Vec::new();
    let mut i: usize = 0;
    while i < list.len()
        invariant
            i <= list@.len(),
            r@ == without_default(list@.subrange(0, i as int)),
        decreases list@.len() - i,
    {
        proof {
            let next = list@.subrange(0, i as int + 1);
            assert(next.drop_last() =~= list@.subrange(0, i as int));
            reveal_with_fuel(Seq::filter, 1);
        }
        if list[i] != DEFAULT_INDEX {
            r.push(list[i]);
        }
        i = i + 1;
    }
    assert(list@.subrange(0, list@.len() as int) =~= list@);
    r
}

/// Turns the indices chosen in the prompt into the templates to write.
pub fn normalize_template_list(template_list: Vec<usize>) -> (r: Vec<usize>)
    ensures
        r@ == normalized(template_list@),
{
    if template_list.len() == 1 && template_list[0] == DEFAULT_INDEX {
        assert(template_list@ =~= seq![DEFAULT_INDEX]);
        vec![1, 2]
    } else {
        assert(template_list@ != seq![DEFAULT_INDEX]);
        if contains_default(&template_list) {
            remove_default(&template_list)
        } else {
            template_list
        }
    }
}

} // verus!
