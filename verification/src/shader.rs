//! Shader-source substitution and the atomic reload bookkeeping.
//!
//! The compute shader template carries a placeholder field function; a
//! reload splices the user-edited function body into the template (either a
//! newly supplied template or the last accepted one), hands the spliced
//! source out for compilation, and swaps the compiled pipeline in only on
//! success.  A failed compile leaves pipeline and stored source untouched
//! and records the diagnostic.

use vstd::prelude::*;
use vstd::string::StrSliceExecFns;
use vstd::string::StringSliceAdditionalSpecFns;
use crate::view::ViewController;

verus! {

/// The pattern occurs in `text` at position `i`.
pub open spec fn match_at(text: Seq<u8>, pat: Seq<u8>, i: int) -> bool {
    0 <= i && i + pat.len() <= text.len() && text.subrange(i, i + pat.len()) == pat
}

/// The pattern occurs at `i` and nowhere earlier.
pub open spec fn first_match_at(text: Seq<u8>, pat: Seq<u8>, i: int) -> bool {
    match_at(text, pat, i) && forall|j: int| 0 <= j < i ==> !match_at(text, pat, j)
}

/// The placeholder line that shader templates carry in place of the field
/// function.
pub open spec fn placeholder_bytes() -> Seq<u8> {
    "fn field_function(p_prev: vec3<f32>, p: vec3<f32>, v0: vec3<f32>, v: vec3<f32>, t: f32) -> vec3<f32> { return v; }".spec_bytes()
}

/// The head of the spliced-in replacement function.
pub open spec fn header_bytes() -> Seq<u8> {
    "fn field_function(p_prev: vec3<f32>, p: vec3<f32>, v0: vec3<f32>, v: vec3<f32>, t: f32) -> vec3<f32> {\n".spec_bytes()
}

/// The tail of the spliced-in replacement function.
pub open spec fn footer_bytes() -> Seq<u8> {
    "\n}".spec_bytes()
}

/// The replacement function around a user-supplied body.
pub open spec fn wrapped_function(body: Seq<u8>) -> Seq<u8> {
    header_bytes() + body + footer_bytes()
}

/// `r` is `text` with `rep` spliced in over the first occurrence of `pat`,
/// or `text` itself when `pat` does not occur.
pub open spec fn is_replacement(text: Seq<u8>, pat: Seq<u8>, rep: Seq<u8>, r: Seq<u8>) -> bool {
    &&& ((forall|j: int| !match_at(text, pat, j)) ==> r == text)
    &&& (forall|i: int|
        first_match_at(text, pat, i) ==> r == text.subrange(0, i) + rep + text.subrange(
            i + pat.len(),
            text.len() as int,
        ))
}

/// `r` is `template` with the replacement function spliced in over the first
/// occurrence of the placeholder, or `template` itself when the placeholder
/// does not occur.
pub open spec fn is_substitution(template: Seq<u8>, body: Seq<u8>, r: Seq<u8>) -> bool {
    is_replacement(template, placeholder_bytes(), wrapped_function(body), r)
}

/// Does the pattern occur in `text` at position `i`?
fn is_match(text: &Vec<u8>, pat: &Vec<u8>, i: usize) -> (b: bool)
    requires
        i + pat@.len() <= text@.len(),
    ensures
        b == match_at(text@, pat@, i as int),
{
    let text_len = text.len();
    let mut k: usize = 0;
    while k < pat.len()
        invariant
            k <= pat@.len(),
            i + pat@.len() <= text@.len(),
            text@.len() <= usize::MAX,
            forall|m: int| 0 <= m < k ==> text@[i + m] == pat@[m],
        decreases pat@.len() - k,
    {
        if text[i + k] != pat[k] {
            proof {
                if match_at(text@, pat@, i as int) {
                    assert(text@.subrange(i as int, i + pat@.len())[k as int] == text@[i + k]);
                }
            }
            return false;
        }
        k = k + 1;
    }
    proof {
        assert(text@.subrange(i as int, i + pat@.len()) =~= pat@);
    }
    true
}

/// Position of the first occurrence of the pattern, if any.
fn find_first(text: &Vec<u8>, pat: &Vec<u8>) -> (r: Option<usize>)
    ensures
        r matches Some(i) ==> first_match_at(text@, pat@, i as int),
        r is None ==> forall|j: int| !match_at(text@, pat@, j),
{
    if pat.len() > text.len() {
        return None;
    }
    if pat.len() == 0 {
        proof {
            assert(text@.subrange(0, 0) =~= pat@);
        }
        return Some(0);
    }
    let last = text.len() - pat.len();
    let mut i: usize = 0;
    while i <= last
        invariant
            1 <= pat@.len() <= text@.len(),
            text@.len() <= usize::MAX,
            last == text@.len() - pat@.len(),
            i <= last + 1,
            forall|j: int| 0 <= j < i ==> !match_at(text@, pat@, j),
        decreases last + 1 - i,
    {
        if is_match(text, pat, i) {
            return Some(i);
        }
        i = i + 1;
    }
    None
}

/// Append the whole of `src` to `dst`.
fn append_all(dst: &mut Vec<u8>, src: &Vec<u8>)
    ensures
        final(dst)@ == old(dst)@ + src@,
{
    let mut k: usize = 0;
    while k < src.len()
        invariant
            k <= src@.len(),
            dst@ == old(dst)@ + src@.subrange(0, k as int),
        decreases src@.len() - k,
    {
        dst.push(src[k]);
        proof {
            assert(dst@ =~= old(dst)@ + src@.subrange(0, k as int + 1));
        }
        k = k + 1;
    }
    proof {
        assert(old(dst)@ + src@.subrange(0, src@.len() as int) =~= old(dst)@ + src@);
    }
}

/// Append `src[from..to]` to `dst`.
fn append_range(dst: &mut Vec<u8>, src: &Vec<u8>, from: usize, to: usize)
    requires
        from <= to <= src@.len(),
    ensures
        final(dst)@ == old(dst)@ + src@.subrange(from as int, to as int),
{
    let mut k: usize = from;
    while k < to
        invariant
            from <= k <= to <= src@.len(),
            dst@ == old(dst)@ + src@.subrange(from as int, k as int),
        decreases to - k,
    {
        dst.push(src[k]);
        proof {
            assert(dst@ =~= old(dst)@ + src@.subrange(from as int, k as int + 1));
        }
        k = k + 1;
    }
}

/// Replace the first occurrence of `pat` in `text` by `rep`; without an
/// occurrence the text comes back unchanged.
pub fn replace_first(text: &Vec<u8>, pat: &Vec<u8>, rep: &Vec<u8>) -> (r: Vec<u8>)
    ensures
        is_replacement(text@, pat@, rep@, r@),
{
    match find_first(text, pat) {
        None => {
            let mut out: Vec<u8> = Vec::new();
            append_all(&mut out, text);
            proof {
                assert(out@ =~= text@);
            }
            out
        },
        Some(i) => {
            let text_len = text.len();
            let mut out: Vec<u8> = Vec::new();
            append_range(&mut out, text, 0, i);
            append_all(&mut out, rep);
            append_range(&mut out, text, i + pat.len(), text_len);
            proof {
                lemma_first_match_unique(text@, pat@, i as int);
                assert(out@ =~= text@.subrange(0, i as int) + rep@ + text@.subrange(
                    i + pat@.len(),
                    text@.len() as int,
                ));
            }
            out
        },
    }
}

/// Splice the replacement function built from `field_function` into the
/// shader template, over the first occurrence of the placeholder line; a
/// template without the placeholder comes back unchanged.
pub fn with_field_function(shader_src: &Vec<u8>, field_function: &Vec<u8>) -> (r: Vec<u8>)
    ensures
        is_substitution(shader_src@, field_function@, r@),
{
    let pat =
        "fn field_function(p_prev: vec3<f32>, p: vec3<f32>, v0: vec3<f32>, v: vec3<f32>, t: f32) -> vec3<f32> { return v; }".as_bytes_vec();
    let mut rep =
        "fn field_function(p_prev: vec3<f32>, p: vec3<f32>, v0: vec3<f32>, v: vec3<f32>, t: f32) -> vec3<f32> {\n".as_bytes_vec();
    append_all(&mut rep, field_function);
    let ftr = "\n}".as_bytes_vec();
    append_all(&mut rep, &ftr);
    proof {
        assert(rep@ =~= wrapped_function(field_function@));
    }
    replace_first(shader_src, &pat, &rep)
}

/// The first occurrence position is unique.
proof fn lemma_first_match_unique(text: Seq<u8>, pat: Seq<u8>, i: int)
    requires
        first_match_at(text, pat, i),
    ensures
        forall|j: int| first_match_at(text, pat, j) ==> j == i,
{
}

/// A failed shader compile, with the backend's diagnostic text.
#[derive(Clone, PartialEq, Eq, Debug)]
pub struct CompileError {
    pub message: String,
}

/// Owns the last accepted shader template, the live compiled pipeline handle
/// and the most recent compile diagnostic.  The pipeline handle type is the
/// caller's; the coordinator only swaps it atomically.
pub struct ShaderReloadCoordinator<P> {
    /// The last template whose compilation succeeded.
    pub shader_src: Vec<u8>,
    /// The pipeline currently in use.
    pub pipeline: P,
    /// The diagnostic of the most recent failed reload, if the last reload
    /// failed.
    pub last_error: Option<CompileError>,
}

impl<P> ShaderReloadCoordinator<P> {
    /// Start from an accepted template and its compiled pipeline.
    pub fn new(shader_src: Vec<u8>, pipeline: P) -> (c: ShaderReloadCoordinator<P>)
        ensures
            c.shader_src == shader_src,
            c.last_error is None,
    {
        ShaderReloadCoordinator { shader_src, pipeline, last_error: None }
    }

    /// The source a reload must compile: the supplied new template, or the
    /// last accepted one, with the field function spliced in.
    pub fn source_for_reload(&self, new_src: Option<&Vec<u8>>, field_function: &Vec<u8>) -> (r:
        Vec<u8>)
        ensures
            new_src matches Some(s) ==> is_substitution(s@, field_function@, r@),
            new_src is None ==> is_substitution(self.shader_src@, field_function@, r@),
    {
        match new_src {
            Some(s) => with_field_function(s, field_function),
            None => with_field_function(&self.shader_src, field_function),
        }
    }

    /// A one-off variant of the stored template with the first occurrence
    /// of `pat` replaced by `rep` (used for temporary high-accuracy or
    /// outline renders); the stored template itself is untouched.
    pub fn variant_source(&self, pat: &Vec<u8>, rep: &Vec<u8>) -> (r: Vec<u8>)
        ensures
            is_replacement(self.shader_src@, pat@, rep@, r@),
    {
        replace_first(&self.shader_src, pat, rep)
    }

    /// Apply a compile outcome atomically.  On success the new pipeline (and
    /// the new template, if one was supplied) replace the old ones, the
    /// diagnostic is cleared and the view is dirtied so the next frame uses
    /// the new pipeline.  On failure pipeline and stored template are left
    /// exactly as they were, the diagnostic is recorded, and the view is
    /// untouched.
    pub fn apply_outcome(
        &mut self,
        main: &mut ViewController,
        new_src: Option<Vec<u8>>,
        outcome: Result<P, CompileError>,
    ) -> (ok: bool)
        requires
            old(main).wf(),
        ensures
            final(main).wf(),
            outcome matches Ok(p) ==> ok == true && final(self).pipeline == p
                && final(self).last_error is None && *final(main) == (ViewController {
                needs_redraw: true,
                ..*old(main)
            }) && (match new_src {
                Some(s) => final(self).shader_src == s,
                None => final(self).shader_src == old(self).shader_src,
            }),
            outcome matches Err(e) ==> ok == false && final(self).pipeline == old(self).pipeline
                && final(self).shader_src == old(self).shader_src && final(self).last_error
                == Some(e) && *final(main) == *old(main),
    {
        match outcome {
            Result::Ok(p) => {
                self.pipeline = p;
                if let Some(s) = new_src {
                    self.shader_src = s;
                }
                self.last_error = None;
                main.needs_redraw = true;
                true
            },
            Result::Err(e) => {
                self.last_error = Some(e);
                false
            },
        }
    }
}

} // verus!
