//! Global invariants of the attribute table.
//!
//! The accessors in the crate root give each entry's metadata an exact
//! contract; the proof functions here state what holds of the table as a
//! whole: names and descriptions are never empty, canonical names identify
//! their attribute uniquely, the value-payload views agree with each other,
//! and the enumeration lists every identifier exactly once, always in the
//! same order.

use vstd::prelude::*;

use crate::LLVMAttribute;

verus! {

/// Completeness of the name column: every identifier's canonical name is a
/// non-empty string.
pub proof fn lemma_kind_name_nonempty(a: LLVMAttribute)
    ensures
        a.spec_kind_name().len() > 0,
{
    reveal_strlit("alwaysinline");
    reveal_strlit("inlinehint");
    reveal_strlit("noreturn");
    reveal_strlit("nounwind");
    reveal_strlit("readnone");
    reveal_strlit("readonly");
    reveal_strlit("writeonly");
    reveal_strlit("speculatable");
    reveal_strlit("minsize");
    reveal_strlit("optsize");
    reveal_strlit("noinline");
    reveal_strlit("nocapture");
    reveal_strlit("nonnull");
    reveal_strlit("dereferenceable");
    reveal_strlit("dereferenceable_or_null");
    reveal_strlit("sret");
    reveal_strlit("align");
    reveal_strlit("allocsize");
    reveal_strlit("allocalign");
    reveal_strlit("returned");
    reveal_strlit("zeroext");
    reveal_strlit("signext");
    reveal_strlit("cold");
    reveal_strlit("hot");
    reveal_strlit("nobuiltin");
    reveal_strlit("noredzone");
    reveal_strlit("sanitize_address");
    reveal_strlit("sanitize_thread");
    reveal_strlit("sanitize_memory");
    reveal_strlit("sanitize_hwaddress");
    reveal_strlit("strictfp");
    reveal_strlit("stackprotector");
    reveal_strlit("stackprotectorreq");
    reveal_strlit("stackprotectorstrong");
    reveal_strlit("uwtable");
    reveal_strlit("returns_twice");
    reveal_strlit("swiftself");
    reveal_strlit("swifterror");
}

/// Completeness of the description column: every identifier's description is
/// a non-empty string.
pub proof fn lemma_description_nonempty(a: LLVMAttribute)
    ensures
        a.spec_description().len() > 0,
{
    reveal_strlit("Suggests that the function should always be inlined.");
    reveal_strlit("Suggests that the function should be inlined if possible.");
    reveal_strlit("Indicates that the function does not return.");
    reveal_strlit("Indicates that the function does not unwind the stack.");
    reveal_strlit("Indicates that the function does not read or write memory.");
    reveal_strlit("Indicates that the function only reads memory but does not write.");
    reveal_strlit("Indicates that the function only writes memory but does not read.");
    reveal_strlit("Indicates that the function can be speculatively executed.");
    reveal_strlit("Suggests optimizing for minimum code size.");
    reveal_strlit("Suggests optimizing for code size.");
    reveal_strlit("Suggests that the function should not be inlined.");
    reveal_strlit("Indicates that the pointer argument is not captured.");
    reveal_strlit("Indicates that the pointer argument is not null.");
    reveal_strlit("Indicates that the pointer argument is dereferenceable to the given size.");
    reveal_strlit("Indicates that the pointer argument is either null or dereferenceable to the given size.");
    reveal_strlit("Indicates that the argument is a structure return pointer.");
    reveal_strlit("Specifies the alignment of the parameter or return value.");
    reveal_strlit("Indicates the allocation size for memory allocation functions.");
    reveal_strlit("Specifies the alignment of memory allocation.");
    reveal_strlit("Indicates that the argument is also a return value.");
    reveal_strlit("Indicates that the integer argument should be zero-extended.");
    reveal_strlit("Indicates that the integer argument should be sign-extended.");
    reveal_strlit("Indicates that the function is unlikely to be executed.");
    reveal_strlit("Indicates that the function is likely to be executed.");
    reveal_strlit("Indicates that the function is not a built-in function.");
    reveal_strlit("Indicates that the function does not use a red zone.");
    reveal_strlit("Enables AddressSanitizer for the function.");
    reveal_strlit("Enables ThreadSanitizer for the function.");
    reveal_strlit("Enables MemorySanitizer for the function.");
    reveal_strlit("Enables HardwareAddressSanitizer for the function.");
    reveal_strlit("Enables strict floating-point semantics.");
    reveal_strlit("Enables stack protection.");
    reveal_strlit("Requires stack protection.");
    reveal_strlit("Enables strong stack protection.");
    reveal_strlit("Indicates that the function should have an unwind table.");
    reveal_strlit("Indicates that the function may return more than once.");
    reveal_strlit("Used in Swift to indicate the self parameter.");
    reveal_strlit("Used in Swift to indicate an error parameter.");
}

/// Uniqueness: the canonical name identifies its attribute. Two identifiers
/// with the same canonical name are the same identifier.
#[verifier::rlimit(100)]
pub proof fn lemma_canonical_names_unique(a: LLVMAttribute, b: LLVMAttribute)
    ensures
        a.spec_kind_name() == b.spec_kind_name() ==> a == b,
{
    reveal_strlit("alwaysinline");
    reveal_strlit("inlinehint");
    reveal_strlit("noreturn");
    reveal_strlit("nounwind");
    reveal_strlit("readnone");
    reveal_strlit("readonly");
    reveal_strlit("writeonly");
    reveal_strlit("speculatable");
    reveal_strlit("minsize");
    reveal_strlit("optsize");
    reveal_strlit("noinline");
    reveal_strlit("nocapture");
    reveal_strlit("nonnull");
    reveal_strlit("dereferenceable");
    reveal_strlit("dereferenceable_or_null");
    reveal_strlit("sret");
    reveal_strlit("align");
    reveal_strlit("allocsize");
    reveal_strlit("allocalign");
    reveal_strlit("returned");
    reveal_strlit("zeroext");
    reveal_strlit("signext");
    reveal_strlit("cold");
    reveal_strlit("hot");
    reveal_strlit("nobuiltin");
    reveal_strlit("noredzone");
    reveal_strlit("sanitize_address");
    reveal_strlit("sanitize_thread");
    reveal_strlit("sanitize_memory");
    reveal_strlit("sanitize_hwaddress");
    reveal_strlit("strictfp");
    reveal_strlit("stackprotector");
    reveal_strlit("stackprotectorreq");
    reveal_strlit("stackprotectorstrong");
    reveal_strlit("uwtable");
    reveal_strlit("returns_twice");
    reveal_strlit("swiftself");
    reveal_strlit("swifterror");
    // Ground the length of every name: names of different lengths are
    // thereby told apart outright.
    assert("alwaysinline"@.len() == 12);
    assert("inlinehint"@.len() == 10);
    assert("noreturn"@.len() == 8);
    assert("nounwind"@.len() == 8);
    assert("readnone"@.len() == 8);
    assert("readonly"@.len() == 8);
    assert("writeonly"@.len() == 9);
    assert("speculatable"@.len() == 12);
    assert("minsize"@.len() == 7);
    assert("optsize"@.len() == 7);
    assert("noinline"@.len() == 8);
    assert("nocapture"@.len() == 9);
    assert("nonnull"@.len() == 7);
    assert("dereferenceable"@.len() == 15);
    assert("dereferenceable_or_null"@.len() == 23);
    assert("sret"@.len() == 4);
    assert("align"@.len() == 5);
    assert("allocsize"@.len() == 9);
    assert("allocalign"@.len() == 10);
    assert("returned"@.len() == 8);
    assert("zeroext"@.len() == 7);
    assert("signext"@.len() == 7);
    assert("cold"@.len() == 4);
    assert("hot"@.len() == 3);
    assert("nobuiltin"@.len() == 9);
    assert("noredzone"@.len() == 9);
    assert("sanitize_address"@.len() == 16);
    assert("sanitize_thread"@.len() == 15);
    assert("sanitize_memory"@.len() == 15);
    assert("sanitize_hwaddress"@.len() == 18);
    assert("strictfp"@.len() == 8);
    assert("stackprotector"@.len() == 14);
    assert("stackprotectorreq"@.len() == 17);
    assert("stackprotectorstrong"@.len() == 20);
    assert("uwtable"@.len() == 7);
    assert("returns_twice"@.len() == 13);
    assert("swiftself"@.len() == 9);
    assert("swifterror"@.len() == 10);
    // Names of equal length differ in some character; ground one such
    // character for each and compare the pairs.
    assert("sret"@[0] == 's');
    assert("cold"@[0] == 'c');
    assert("minsize"@[0] == 'm');
    assert("optsize"@[0] == 'o');
    assert("nonnull"@[0] == 'n');
    assert("zeroext"@[0] == 'z');
    assert("signext"@[0] == 's');
    assert("uwtable"@[0] == 'u');
    assert("noreturn"@[0] == 'n');
    assert("noreturn"@[2] == 'r');
    assert("nounwind"@[0] == 'n');
    assert("nounwind"@[2] == 'u');
    assert("readnone"@[0] == 'r');
    assert("readnone"@[2] == 'a');
    assert("readnone"@[4] == 'n');
    assert("readonly"@[0] == 'r');
    assert("readonly"@[2] == 'a');
    assert("readonly"@[4] == 'o');
    assert("noinline"@[0] == 'n');
    assert("noinline"@[2] == 'i');
    assert("returned"@[0] == 'r');
    assert("returned"@[2] == 't');
    assert("strictfp"@[0] == 's');
    assert("writeonly"@[0] == 'w');
    assert("nocapture"@[0] == 'n');
    assert("nocapture"@[2] == 'c');
    assert("allocsize"@[0] == 'a');
    assert("nobuiltin"@[0] == 'n');
    assert("nobuiltin"@[2] == 'b');
    assert("noredzone"@[0] == 'n');
    assert("noredzone"@[2] == 'r');
    assert("swiftself"@[0] == 's');
    assert("inlinehint"@[0] == 'i');
    assert("allocalign"@[0] == 'a');
    assert("swifterror"@[0] == 's');
    assert("alwaysinline"@[0] == 'a');
    assert("speculatable"@[0] == 's');
    assert("dereferenceable"@[0] == 'd');
    assert("sanitize_thread"@[0] == 's');
    assert("sanitize_thread"@[9] == 't');
    assert("sanitize_memory"@[0] == 's');
    assert("sanitize_memory"@[9] == 'm');
    assert("sret"@ != "cold"@);
    assert("minsize"@ != "optsize"@);
    assert("minsize"@ != "nonnull"@);
    assert("minsize"@ != "zeroext"@);
    assert("minsize"@ != "signext"@);
    assert("minsize"@ != "uwtable"@);
    assert("optsize"@ != "nonnull"@);
    assert("optsize"@ != "zeroext"@);
    assert("optsize"@ != "signext"@);
    assert("optsize"@ != "uwtable"@);
    assert("nonnull"@ != "zeroext"@);
    assert("nonnull"@ != "signext"@);
    assert("nonnull"@ != "uwtable"@);
    assert("zeroext"@ != "signext"@);
    assert("zeroext"@ != "uwtable"@);
    assert("signext"@ != "uwtable"@);
    assert("noreturn"@ != "nounwind"@);
    assert("noreturn"@ != "readnone"@);
    assert("noreturn"@ != "readonly"@);
    assert("noreturn"@ != "noinline"@);
    assert("noreturn"@ != "returned"@);
    assert("noreturn"@ != "strictfp"@);
    assert("nounwind"@ != "readnone"@);
    assert("nounwind"@ != "readonly"@);
    assert("nounwind"@ != "noinline"@);
    assert("nounwind"@ != "returned"@);
    assert("nounwind"@ != "strictfp"@);
    assert("readnone"@ != "readonly"@);
    assert("readnone"@ != "noinline"@);
    assert("readnone"@ != "returned"@);
    assert("readnone"@ != "strictfp"@);
    assert("readonly"@ != "noinline"@);
    assert("readonly"@ != "returned"@);
    assert("readonly"@ != "strictfp"@);
    assert("noinline"@ != "returned"@);
    assert("noinline"@ != "strictfp"@);
    assert("returned"@ != "strictfp"@);
    assert("writeonly"@ != "nocapture"@);
    assert("writeonly"@ != "allocsize"@);
    assert("writeonly"@ != "nobuiltin"@);
    assert("writeonly"@ != "noredzone"@);
    assert("writeonly"@ != "swiftself"@);
    assert("nocapture"@ != "allocsize"@);
    assert("nocapture"@ != "nobuiltin"@);
    assert("nocapture"@ != "noredzone"@);
    assert("nocapture"@ != "swiftself"@);
    assert("allocsize"@ != "nobuiltin"@);
    assert("allocsize"@ != "noredzone"@);
    assert("allocsize"@ != "swiftself"@);
    assert("nobuiltin"@ != "noredzone"@);
    assert("nobuiltin"@ != "swiftself"@);
    assert("noredzone"@ != "swiftself"@);
    assert("inlinehint"@ != "allocalign"@);
    assert("inlinehint"@ != "swifterror"@);
    assert("allocalign"@ != "swifterror"@);
    assert("alwaysinline"@ != "speculatable"@);
    assert("dereferenceable"@ != "sanitize_thread"@);
    assert("dereferenceable"@ != "sanitize_memory"@);
    assert("sanitize_thread"@ != "sanitize_memory"@);
}

/// The two value-payload views of the table agree: an attribute takes a
/// value exactly when its raw value entry is not the placeholder `"None"`.
pub proof fn lemma_value_views_agree(a: LLVMAttribute)
    ensures
        a.spec_has_value() <==> a.spec_value_description_str() != "None"@,
{
    reveal_strlit("None");
    reveal_strlit("Integer (size in bytes)");
    reveal_strlit("Integer (alignment in bytes)");
    reveal_strlit("Two integers (element size and number of elements)");
    assert("None"@.len() == 4);
    assert("Integer (size in bytes)"@.len() == 23);
    assert("Integer (alignment in bytes)"@.len() == 28);
    assert("Two integers (element size and number of elements)"@.len() == 50);
    assert("Integer (size in bytes)"@ != "None"@);
    assert("Integer (alignment in bytes)"@ != "None"@);
    assert("Two integers (element size and number of elements)"@ != "None"@);
}

/// Completeness of the enumeration: every identifier of the closed set
/// appears in the enumeration sequence.
pub proof fn lemma_enumeration_complete(a: LLVMAttribute)
    ensures
        LLVMAttribute::spec_enumeration().contains(a),
{
    let e = LLVMAttribute::spec_enumeration();
    assert(e.len() == 38);
    match a {
        LLVMAttribute::AlwaysInline => assert(e[0] == a),
        LLVMAttribute::InlineHint => assert(e[1] == a),
        LLVMAttribute::NoReturn => assert(e[2] == a),
        LLVMAttribute::NoUnwind => assert(e[3] == a),
        LLVMAttribute::ReadNone => assert(e[4] == a),
        LLVMAttribute::ReadOnly => assert(e[5] == a),
        LLVMAttribute::WriteOnly => assert(e[6] == a),
        LLVMAttribute::Speculatable => assert(e[7] == a),
        LLVMAttribute::MinSize => assert(e[8] == a),
        LLVMAttribute::OptSize => assert(e[9] == a),
        LLVMAttribute::NoInline => assert(e[10] == a),
        LLVMAttribute::NoCapture => assert(e[11] == a),
        LLVMAttribute::NonNull => assert(e[12] == a),
        LLVMAttribute::Dereferenceable => assert(e[13] == a),
        LLVMAttribute::DereferenceableOrNull => assert(e[14] == a),
        LLVMAttribute::SRet => assert(e[15] == a),
        LLVMAttribute::Align => assert(e[16] == a),
        LLVMAttribute::AllocSize => assert(e[17] == a),
        LLVMAttribute::Allocalign => assert(e[18] == a),
        LLVMAttribute::Returned => assert(e[19] == a),
        LLVMAttribute::ZeroExt => assert(e[20] == a),
        LLVMAttribute::SignExt => assert(e[21] == a),
        LLVMAttribute::Cold => assert(e[22] == a),
        LLVMAttribute::Hot => assert(e[23] == a),
        LLVMAttribute::NoBuiltin => assert(e[24] == a),
        LLVMAttribute::NoRedZone => assert(e[25] == a),
        LLVMAttribute::SanitizeAddress => assert(e[26] == a),
        LLVMAttribute::SanitizeThread => assert(e[27] == a),
        LLVMAttribute::SanitizeMemory => assert(e[28] == a),
        LLVMAttribute::SanitizeHWAddress => assert(e[29] == a),
        LLVMAttribute::StrictFP => assert(e[30] == a),
        LLVMAttribute::StackProtector => assert(e[31] == a),
        LLVMAttribute::StackProtectorReq => assert(e[32] == a),
        LLVMAttribute::StackProtectorStrong => assert(e[33] == a),
        LLVMAttribute::UWTable => assert(e[34] == a),
        LLVMAttribute::ReturnsTwice => assert(e[35] == a),
        LLVMAttribute::SwiftSelf => assert(e[36] == a),
        LLVMAttribute::SwiftError => assert(e[37] == a),
    }
}

/// The enumeration lists each identifier at most once: two different
/// positions hold different identifiers.
pub proof fn lemma_enumeration_no_duplicates(i: int, j: int)
    requires
        0 <= i < LLVMAttribute::spec_enumeration().len(),
        0 <= j < LLVMAttribute::spec_enumeration().len(),
        i != j,
    ensures
        LLVMAttribute::spec_enumeration()[i] != LLVMAttribute::spec_enumeration()[j],
{
}

/// Stability of the enumeration order: any two sequences that `enumerate`
/// returns are equal, element for element.
pub proof fn lemma_enumeration_stable(r1: Seq<LLVMAttribute>, r2: Seq<LLVMAttribute>)
    requires
        r1 == LLVMAttribute::spec_enumeration(),
        r2 == LLVMAttribute::spec_enumeration(),
    ensures
        r1 == r2,
{
}

} // verus!
