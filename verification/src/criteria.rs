//! Criteria by name.
use vstd::prelude::*;
use crate::error::VoteErrorKind;
use crate::routes::{refusal, status_of, Refusal};
use crate::validator::{compare_styles_file_names, starts_alike};

verus! {

/// The ids of the criteria whose name starts with `criterion`, letter case
/// aside, in the order of the listing.
pub fn get_criterion(index: &Vec<String>, criterion: &str) -> (r: Vec<String>)
    ensures
        r.deep_view() == index.deep_view().filter(|id: Seq<char>| starts_alike(id, criterion@)),
{
    let ghost pred = |id: Seq<char>| starts_alike(id, criterion@);
    let mut out: Vec<String> = Vec::new();
    let mut i: usize = 0;
    proof {
        reveal(Seq::filter);
        assert(index.deep_view().take(0).filter(pred) =~= out.deep_view());
    }
    while i < index.len()
        invariant
            i <= index.len(),
            pred == (|id: Seq<char>| starts_alike(id, criterion@)),
            out.deep_view() == index.deep_view().take(i as int).filter(pred),
        decreases index.len() - i,
    {
        proof {
            index.deep_view().lemma_take_succ_push(i as int);
            index.deep_view().take(i as int).lemma_filter_push(index[i as int]@, pred);
        }
        if compare_styles_file_names(index[i].as_str(), criterion) {
            let ghost before = out.deep_view();
            out.push(index[i].clone());
            assert(out.deep_view() =~= before.push(index[i as int]@));
        }
        i += 1;
    }
    assert(index.deep_view().take(index.len() as int) =~= index.deep_view());
    out
}

/// The answer to a criterion or a person that was sent to be stored: what
/// the storage answered, or its failure with its status and message. An
/// id that is taken is a conflict that names what exists.
pub fn post_criterion<'r>(saved: Result<String, VoteErrorKind<'r>>) -> (r: Result<String, Refusal>)
    ensures
        (match saved {
            Ok(done) => r == Ok::<String, Refusal>(done),
            Err(e) => r is Err && r->Err_0.status == status_of(e@) && r->Err_0.message@
                == e@.message(),
        }),
{
    match saved {
        Ok(done) => Ok(done),
        Err(e) => Err(refusal(&e)),
    }
}

} // verus!
