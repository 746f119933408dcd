//! The backend protocol's pure parts.
//!
//! The inference backend streams newline-delimited JSON objects, each
//! carrying a response fragment and a done flag; the fragments are
//! concatenated until the first done fragment or stream end.  Availability
//! is answered by a model list matched by exact name or `name:` prefix.
//! Reading the wire is the application's business; this module holds the
//! decisions those bytes feed.

use vstd::prelude::*;

verus! {

use vstd::string::StringExecFns;
use crate::text::str_to_chars;

/// The views of a fragment list.
pub open spec fn spec_fragment_views(v: Seq<(String, bool)>) -> Seq<(Seq<char>, bool)> {
    v.map_values(|p: (String, bool)| (p.0@, p.1))
}

/// Concatenation of stream fragments up to and including the first one
/// marked done.
pub open spec fn spec_assemble(s: Seq<(Seq<char>, bool)>) -> Seq<char>
    decreases s.len(),
{
    if s.len() == 0 {
        Seq::<char>::empty()
    } else if s[0].1 {
        s[0].0
    } else {
        s[0].0 + spec_assemble(s.drop_first())
    }
}

/// Concatenate the response fragments of a model stream, stopping after the
/// first fragment marked done.
pub fn assemble_fragments(fragments: &Vec<(String, bool)>) -> (r: String)
    ensures
        r@ == spec_assemble(spec_fragment_views(fragments@)),
{
    let ghost views = spec_fragment_views(fragments@);
    let n = fragments.len();
    let mut out = String::new();
    let mut i: usize = 0;
    assert(views.skip(0) =~= views);
    while i < n
        invariant_except_break
            spec_assemble(views) == out@ + spec_assemble(views.skip(i as int)),
        invariant
            n == fragments@.len(),
            views == spec_fragment_views(fragments@),
            views.len() == n,
            i <= n,
        ensures
            out@ == spec_assemble(views),
        decreases n - i,
    {
        proof {
            assert(views[i as int] == (fragments@[i as int].0@, fragments@[i as int].1));
            assert(views.skip(i as int)[0] == views[i as int]);
            assert(views.skip(i as int).drop_first() =~= views.skip(i as int + 1));
        }
        out.append(fragments[i].0.as_str());
        if fragments[i].1 {
            proof {
                assert(spec_assemble(views.skip(i as int)) == views[i as int].0);
            }
            break ;
        }
        i = i + 1;
    }
    proof {
        if i == n {
            assert(views.skip(n as int) =~= Seq::<(Seq<char>, bool)>::empty());
            assert(out@ + Seq::<char>::empty() =~= out@);
        }
    }
    out
}

/// Whether a listed model name answers for the requested model: an exact
/// match, or the listed name extends the requested one with a colon (a
/// tagged variant of the same model).
pub open spec fn spec_name_matches(entry: Seq<char>, model: Seq<char>) -> bool {
    entry == model || (entry.len() > model.len() && entry.take(model.len() as int) == model
        && entry[model.len() as int] == ':')
}

/// Executable check of `spec_name_matches`.
fn name_matches(entry: &str, model: &str) -> (r: bool)
    ensures
        r == spec_name_matches(entry@, model@),
{
    let ev = str_to_chars(entry);
    let mv = str_to_chars(model);
    let en = ev.len();
    let mn = mv.len();
    if en < mn {
        proof {
            assert(entry@.len() < model@.len());
            assert(entry@ != model@);
        }
        return false;
    }
    // compare the first `mn` characters
    let mut i: usize = 0;
    while i < mn
        invariant
            en == ev@.len(),
            mn == mv@.len(),
            mn <= en,
            ev@ == entry@,
            mv@ == model@,
            i <= mn,
            forall|j: int| 0 <= j < i ==> ev@[j] == mv@[j],
        decreases mn - i,
    {
        if ev[i] != mv[i] {
            proof {
                assert(entry@[i as int] != model@[i as int]);
                assert(entry@ != model@);
                if entry@.take(model@.len() as int) == model@ {
                    assert(entry@.take(model@.len() as int)[i as int] == entry@[i as int]);
                }
            }
            return false;
        }
        i = i + 1;
    }
    if en == mn {
        proof {
            assert(entry@ =~= model@);
        }
        true
    } else {
        proof {
            assert(entry@.take(model@.len() as int) =~= model@);
        }
        ev[mn] == ':'
    }
}

/// Whether the requested model appears in the backend's model list, by exact
/// name or `name:` prefix.
pub fn model_listed(models: &Vec<String>, model: &str) -> (r: bool)
    ensures
        r == exists|i: int|
            0 <= i < models@.len() && spec_name_matches(models@[i]@, model@),
{
    let n = models.len();
    let mut i: usize = 0;
    while i < n
        invariant
            n == models@.len(),
            i <= n,
            forall|j: int| 0 <= j < i ==> !spec_name_matches(models@[j]@, model@),
        decreases n - i,
    {
        if name_matches(models[i].as_str(), model) {
            return true;
        }
        i = i + 1;
    }
    false
}

} // verus!
