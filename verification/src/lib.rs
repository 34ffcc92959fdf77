//! Converts owned strings into string slices that remain valid for the
//! remainder of the program, by copying each string's contents into
//! freshly allocated storage that is deliberately never reclaimed.

use vstd::prelude::*;

verus! {

/// Holds when `output` is an element-for-element copy of `input`: the same
/// number of strings, and the characters of each output element equal the
/// characters of the input element at the same index.
pub open spec fn preserves_contents(input: Seq<Seq<char>>, output: Seq<Seq<char>>) -> bool {
    &&& output.len() == input.len()
    &&& forall|i: int| 0 <= i < input.len() ==> output[i] == input[i]
}

/// The character sequences held by a sequence of owned strings.
pub open spec fn string_views(v: Seq<String>) -> Seq<Seq<char>> {
    Seq::new(v.len(), |i: int| v[i]@)
}

/// The character sequences held by a sequence of string slices.
pub open spec fn str_views(v: Seq<&'static str>) -> Seq<Seq<char>> {
    Seq::new(v.len(), |i: int| v[i]@)
}

/// Relies on `Box::leak`: the returned slice points at a fresh allocation
/// holding exactly the characters of `s`, and that allocation is never
/// reclaimed, so the reference stays valid for the rest of the program.
#[verifier::external_body]
fn leak_copy(s: &String) -> (r: &'static str)
    ensures
        r@ == s@,
{
    Box::leak(s.clone().into_boxed_str())
}

/// Converts a vector of `String`s into a vector of `&'static str`.
///
/// Each input string's contents are copied into storage that is never
/// freed, so every returned slice is valid for the remainder of the
/// program. The output has one element per input element, in the same
/// order, with identical characters. The process's memory usage grows
/// permanently by the total length of the inputs: that is the price of
/// the unbounded lifetime, by design.
pub fn vec_string_to_static_str(strings: &Vec<String>) -> (r: Vec<&'static str>)
    ensures
        r@.len() == strings@.len(),
        forall|i: int| 0 <= i < strings@.len() ==> r@[i]@ == strings@[i]@,
        preserves_contents(string_views(strings@), str_views(r@)),
{
    let mut strs: Vec<&'static str> = Vec::new();
    let mut i: usize = 0;
    while i < strings.len()
        invariant
            i <= strings@.len(),
            strs@.len() == i,
            forall|j: int| 0 <= j < i ==> strs@[j]@ == strings@[j]@,
        decreases strings@.len() - i,
    {
        strs.push(leak_copy(&strings[i]));
        i += 1;
    }
    strs
}

/// The conversion is deterministic in content: any two outputs that satisfy
/// the conversion contract for the same input are equal as sequences of
/// character sequences. Calling the conversion twice on the same logical
/// input therefore yields two independently backed outputs that agree
/// element for element.
pub proof fn lemma_conversion_deterministic(
    input: Seq<Seq<char>>,
    out1: Seq<Seq<char>>,
    out2: Seq<Seq<char>>,
)
    requires
        preserves_contents(input, out1),
        preserves_contents(input, out2),
    ensures
        out1 =~= out2,
{
}

} // verus!
