//! Case-insensitive matching of sensor labels.
//!
//! A thermal sensor is taken as a CPU sensor when its label, compared
//! ASCII-case-insensitively, contains `"CPU"` or `"PACKAGE"`.

use vstd::prelude::*;

verus! {

/// ASCII upper-casing of one byte: lower-case letters are shifted, every
/// other byte is left alone.
pub open spec fn upper_byte(b: u8) -> u8 {
    if 97 <= b && b <= 122 {
        (b - 32) as u8
    } else {
        b
    }
}

/// `pat` occurs at position `i` of `text`, once `text` is upper-cased.
pub open spec fn matches_at(text: Seq<u8>, pat: Seq<u8>, i: int) -> bool {
    &&& 0 <= i
    &&& i + pat.len() <= text.len()
    &&& forall|j: int| 0 <= j < pat.len() ==> upper_byte(text[i + j]) == pat[j]
}

/// The upper-casing of `text` contains `pat` somewhere.
pub open spec fn contains_upper(text: Seq<u8>, pat: Seq<u8>) -> bool {
    exists|i: int| matches_at(text, pat, i)
}

/// The label predicate: the label names the processor when its upper-casing
/// contains `"CPU"` (bytes 67 80 85) or `"PACKAGE"` (bytes 80 65 67 75 65 71
/// 69).
pub open spec fn is_cpu_label(label: Seq<u8>) -> bool {
    contains_upper(label, seq![67, 80, 85]) || contains_upper(
        label,
        seq![80, 65, 67, 75, 65, 71, 69],
    )
}

fn upper_byte_exec(b: u8) -> (r: u8)
    ensures
        r == upper_byte(b),
{
    if 97 <= b && b <= 122 {
        b - 32
    } else {
        b
    }
}

fn matches_at_exec(text: &Vec<u8>, pat: &Vec<u8>, i: usize) -> (r: bool)
    requires
        i + pat@.len() <= text@.len(),
    ensures
        r == matches_at(text@, pat@, i as int),
{
    let n: usize = text.len();
    let mut j: usize = 0;
    while j < pat.len()
        invariant
            i + pat@.len() <= text@.len(),
            text@.len() == n,
            j <= pat@.len(),
            forall|k: int| 0 <= k < j ==> upper_byte(text@[i + k]) == pat@[k],
        decreases pat@.len() - j,
    {
        if upper_byte_exec(text[i + j]) != pat[j] {
            assert(!matches_at(text@, pat@, i as int));
            return false;
        }
        j += 1;
    }
    true
}

/// Whether `pat`, given already upper-cased, occurs in the upper-casing of
/// `text`.
pub fn contains_upper_exec(text: &Vec<u8>, pat: &Vec<u8>) -> (r: bool)
    ensures
        r == contains_upper(text@, pat@),
{
    if pat.len() == 0 {
        assert(matches_at(text@, pat@, 0));
        return true;
    }
    if pat.len() > text.len() {
        assert forall|i: int| !matches_at(text@, pat@, i) by {}
        return false;
    }
    let end: usize = text.len() - pat.len();
    let mut i: usize = 0;
    while i <= end
        invariant
            1 <= pat@.len() <= text@.len(),
            end == text@.len() - pat@.len(),
            end <= usize::MAX - 1,
            i <= end + 1,
            forall|k: int| 0 <= k < i ==> !matches_at(text@, pat@, k),
        decreases end + 1 - i,
    {
        if matches_at_exec(text, pat, i) {
            return true;
        }
        i += 1;
    }
    // Positions up to `end` were searched; past `end` the pattern no longer
    // fits inside the text.
    assert forall|k: int| !matches_at(text@, pat@, k) by {}
    false
}

/// Whether a sensor label names the processor: an ASCII-case-insensitive
/// substring match on `"CPU"` or `"PACKAGE"`.
pub fn label_is_cpu(label: &Vec<u8>) -> (r: bool)
    ensures
        r == is_cpu_label(label@),
{
    // The bytes of "CPU".
    let mut cpu: Vec<u8> = Vec::new();
    cpu.push(67);
    cpu.push(80);
    cpu.push(85);
    assert(cpu@ =~= seq![67, 80, 85]);
    if contains_upper_exec(label, &cpu) {
        return true;
    }
    // The bytes of "PACKAGE".
    let mut package: Vec<u8> = Vec::new();
    package.push(80);
    package.push(65);
    package.push(67);
    package.push(75);
    package.push(65);
    package.push(71);
    package.push(69);
    assert(package@ =~= seq![80, 65, 67, 75, 65, 71, 69]);
    contains_upper_exec(label, &package)
}

} // verus!
