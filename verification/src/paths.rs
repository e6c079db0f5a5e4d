//! Classification of input and output paths.
//!
//! An input path's extension — the part after its last dot, or the whole
//! path when it has no dot — decides the container kind: `rbxl`/`rbxlx`
//! mean a "scene" (place) container, `rbxm`/`rbxmx` a "single object"
//! (model) container, anything else is rejected. An output path must end
//! in `.json`.

use vstd::prelude::*;
use vstd::string::*;

verus! {

#[derive(Clone, Copy, Debug, PartialEq, Eq, Structural)]
pub enum InputKind {
    /// A full scene container (`rbxl`/`rbxlx`).
    Place,
    /// A single object container (`rbxm`/`rbxmx`).
    Model,
    /// Anything else; such a path is rejected.
    Unrecognized,
}

/// What follows the last dot of `path`, or `path` itself when it has none.
pub open spec fn spec_extension(path: Seq<char>) -> Seq<char>
    decreases path.len(),
{
    if path.len() == 0 {
        Seq::empty()
    } else if path.last() == '.' {
        Seq::empty()
    } else {
        spec_extension(path.drop_last()).push(path.last())
    }
}

pub open spec fn spec_classify(path: Seq<char>) -> InputKind {
    let ext = spec_extension(path);
    if ext == "rbxl"@ || ext == "rbxlx"@ {
        InputKind::Place
    } else if ext == "rbxm"@ || ext == "rbxmx"@ {
        InputKind::Model
    } else {
        InputKind::Unrecognized
    }
}

proof fn lemma_extension_is_suffix(path: Seq<char>, start: int)
    requires
        0 <= start <= path.len(),
        forall|i: int| start <= i < path.len() ==> path[i] != '.',
        start == 0 || path[start - 1] == '.',
    ensures
        spec_extension(path) == path.subrange(start, path.len() as int),
    decreases path.len(),
{
    if start == path.len() {
        assert(path.subrange(start, path.len() as int) =~= Seq::empty());
    } else {
        let shorter = path.drop_last();
        lemma_extension_is_suffix(shorter, start);
        assert(spec_extension(path) == spec_extension(shorter).push(path.last()));
        assert(shorter.subrange(start, shorter.len() as int).push(path.last()) =~= path.subrange(
            start,
            path.len() as int,
        ));
    }
}

/// Decides which container kind the input path denotes.
pub fn classify_input_path(path: &str) -> (k: InputKind)
    ensures
        k == spec_classify(path@),
{
    let n = path.unicode_len();
    let mut start: usize = n;
    while start > 0
        invariant
            n == path@.len(),
            start <= n,
            forall|i: int| start <= i < n ==> path@[i] != '.',
        ensures
            start <= n,
            forall|i: int| start <= i < n ==> path@[i] != '.',
            start == 0 || path@[start - 1] == '.',
        decreases start,
    {
        if path.get_char(start - 1) == '.' {
            break ;
        }
        start -= 1;
    }
    proof {
        lemma_extension_is_suffix(path@, start as int);
    }
    let ext = path.substring_char(start, n).to_owned();
    if ext == String::from_str("rbxl") || ext == String::from_str("rbxlx") {
        InputKind::Place
    } else if ext == String::from_str("rbxm") || ext == String::from_str("rbxmx") {
        InputKind::Model
    } else {
        InputKind::Unrecognized
    }
}

pub open spec fn spec_output_path_ok(path: Seq<char>) -> bool {
    path.len() >= 5 && path.subrange(path.len() - 5, path.len() as int) == ".json"@
}

/// Decides whether the output path ends in ".json".
pub fn output_path_ok(path: &str) -> (ok: bool)
    ensures
        ok == spec_output_path_ok(path@),
{
    let n = path.unicode_len();
    if n < 5 {
        return false;
    }
    let tail = path.substring_char(n - 5, n).to_owned();
    tail == String::from_str(".json")
}

} // verus!
