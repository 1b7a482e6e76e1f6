//! Static reference table for LLVM function and parameter attributes.
//!
//! The library maps a closed set of attribute identifiers to fixed metadata:
//! a canonical textual name, a human-readable description, and an optional
//! description of the value payload the attribute carries when applied. The
//! table is fixed at build time; all accessors are pure and total over the
//! identifier type, and `enumerate` lists every identifier in a fixed,
//! deterministic order.
//!
//! The contracts are stated over spec-level copies of the table
//! ([`LLVMAttribute::spec_kind_name`] and friends); the proof functions in
//! [`laws`] establish the table's global invariants: every canonical name and
//! description is non-empty, no two identifiers share a canonical name, and
//! the enumeration lists every identifier exactly once.

use vstd::prelude::*;

pub mod laws;

verus! {

/// The metadata record for one attribute: its canonical name, description,
/// and optional value-payload description, bundled for callers that want all
/// fields of the table in one read.
#[derive(Clone, Copy, Debug)]
pub struct LLVMAttributeInfo {
    /// The canonical lowercase token the toolchain recognises.
    pub kind_name: &'static str,
    /// A human-readable sentence explaining the attribute's effect.
    pub description: &'static str,
    /// A description of the value payload, or `None` for value-less flags.
    pub value_description: Option<&'static str>,
}

/// A named LLVM attribute that can be applied to a function or parameter.
///
/// The set of variants is closed: it mirrors the attributes recognised by the
/// LLVM toolchain that this table describes. Variants are listed in the order
/// that [`LLVMAttribute::enumerate`] reports.
#[derive(Clone, Copy, Debug, PartialEq, Eq, Structural)]
pub enum LLVMAttribute {
    /// Suggests that the function should always be inlined.
    AlwaysInline,
    /// Suggests that the function should be inlined if possible.
    InlineHint,
    /// Indicates that the function does not return.
    NoReturn,
    /// Indicates that the function does not unwind the stack.
    NoUnwind,
    /// Indicates that the function does not read or write memory.
    ReadNone,
    /// Indicates that the function only reads memory but does not write.
    ReadOnly,
    /// Indicates that the function only writes memory but does not read.
    WriteOnly,
    /// Indicates that the function can be speculatively executed.
    Speculatable,
    /// Suggests optimizing for minimum code size.
    MinSize,
    /// Suggests optimizing for code size.
    OptSize,
    /// Suggests that the function should not be inlined.
    NoInline,
    /// Indicates that the pointer argument is not captured.
    NoCapture,
    /// Indicates that the pointer argument is not null.
    NonNull,
    /// Indicates that the pointer argument is dereferenceable to the given size.
    Dereferenceable,
    /// Indicates that the pointer argument is either null or dereferenceable to the given size.
    DereferenceableOrNull,
    /// Indicates that the argument is a structure return pointer.
    SRet,
    /// Specifies the alignment of the parameter or return value.
    Align,
    /// Indicates the allocation size for memory allocation functions.
    AllocSize,
    /// Specifies the alignment of memory allocation.
    Allocalign,
    /// Indicates that the argument is also a return value.
    Returned,
    /// Indicates that the integer argument should be zero-extended.
    ZeroExt,
    /// Indicates that the integer argument should be sign-extended.
    SignExt,
    /// Indicates that the function is unlikely to be executed.
    Cold,
    /// Indicates that the function is likely to be executed.
    Hot,
    /// Indicates that the function is not a built-in function.
    NoBuiltin,
    /// Indicates that the function does not use a red zone.
    NoRedZone,
    /// Enables AddressSanitizer for the function.
    SanitizeAddress,
    /// Enables ThreadSanitizer for the function.
    SanitizeThread,
    /// Enables MemorySanitizer for the function.
    SanitizeMemory,
    /// Enables HardwareAddressSanitizer for the function.
    SanitizeHWAddress,
    /// Enables strict floating-point semantics.
    StrictFP,
    /// Enables stack protection.
    StackProtector,
    /// Requires stack protection.
    StackProtectorReq,
    /// Enables strong stack protection.
    StackProtectorStrong,
    /// Indicates that the function should have an unwind table.
    UWTable,
    /// Indicates that the function may return more than once.
    ReturnsTwice,
    /// Used in Swift to indicate the self parameter.
    SwiftSelf,
    /// Used in Swift to indicate an error parameter.
    SwiftError,
}

impl LLVMAttribute {
    /// The canonical lowercase token for this attribute, as a sequence of
    /// characters. This is the exact wire form the toolchain recognises.
    pub open spec fn spec_kind_name(self) -> Seq<char> {
        match self {
            LLVMAttribute::AlwaysInline => "alwaysinline"@,
            LLVMAttribute::InlineHint => "inlinehint"@,
            LLVMAttribute::NoReturn => "noreturn"@,
            LLVMAttribute::NoUnwind => "nounwind"@,
            LLVMAttribute::ReadNone => "readnone"@,
            LLVMAttribute::ReadOnly => "readonly"@,
            LLVMAttribute::WriteOnly => "writeonly"@,
            LLVMAttribute::Speculatable => "speculatable"@,
            LLVMAttribute::MinSize => "minsize"@,
            LLVMAttribute::OptSize => "optsize"@,
            LLVMAttribute::NoInline => "noinline"@,
            LLVMAttribute::NoCapture => "nocapture"@,
            LLVMAttribute::NonNull => "nonnull"@,
            LLVMAttribute::Dereferenceable => "dereferenceable"@,
            LLVMAttribute::DereferenceableOrNull => "dereferenceable_or_null"@,
            LLVMAttribute::SRet => "sret"@,
            LLVMAttribute::Align => "align"@,
            LLVMAttribute::AllocSize => "allocsize"@,
            LLVMAttribute::Allocalign => "allocalign"@,
            LLVMAttribute::Returned => "returned"@,
            LLVMAttribute::ZeroExt => "zeroext"@,
            LLVMAttribute::SignExt => "signext"@,
            LLVMAttribute::Cold => "cold"@,
            LLVMAttribute::Hot => "hot"@,
            LLVMAttribute::NoBuiltin => "nobuiltin"@,
            LLVMAttribute::NoRedZone => "noredzone"@,
            LLVMAttribute::SanitizeAddress => "sanitize_address"@,
            LLVMAttribute::SanitizeThread => "sanitize_thread"@,
            LLVMAttribute::SanitizeMemory => "sanitize_memory"@,
            LLVMAttribute::SanitizeHWAddress => "sanitize_hwaddress"@,
            LLVMAttribute::StrictFP => "strictfp"@,
            LLVMAttribute::StackProtector => "stackprotector"@,
            LLVMAttribute::StackProtectorReq => "stackprotectorreq"@,
            LLVMAttribute::StackProtectorStrong => "stackprotectorstrong"@,
            LLVMAttribute::UWTable => "uwtable"@,
            LLVMAttribute::ReturnsTwice => "returns_twice"@,
            LLVMAttribute::SwiftSelf => "swiftself"@,
            LLVMAttribute::SwiftError => "swifterror"@,
        }
    }

    /// The fixed description text for this attribute, as a sequence of
    /// characters.
    pub open spec fn spec_description(self) -> Seq<char> {
        match self {
            LLVMAttribute::AlwaysInline => "Suggests that the function should always be inlined."@,
            LLVMAttribute::InlineHint => "Suggests that the function should be inlined if possible."@,
            LLVMAttribute::NoReturn => "Indicates that the function does not return."@,
            LLVMAttribute::NoUnwind => "Indicates that the function does not unwind the stack."@,
            LLVMAttribute::ReadNone => "Indicates that the function does not read or write memory."@,
            LLVMAttribute::ReadOnly => "Indicates that the function only reads memory but does not write."@,
            LLVMAttribute::WriteOnly => "Indicates that the function only writes memory but does not read."@,
            LLVMAttribute::Speculatable => "Indicates that the function can be speculatively executed."@,
            LLVMAttribute::MinSize => "Suggests optimizing for minimum code size."@,
            LLVMAttribute::OptSize => "Suggests optimizing for code size."@,
            LLVMAttribute::NoInline => "Suggests that the function should not be inlined."@,
            LLVMAttribute::NoCapture => "Indicates that the pointer argument is not captured."@,
            LLVMAttribute::NonNull => "Indicates that the pointer argument is not null."@,
            LLVMAttribute::Dereferenceable => "Indicates that the pointer argument is dereferenceable to the given size."@,
            LLVMAttribute::DereferenceableOrNull => "Indicates that the pointer argument is either null or dereferenceable to the given size."@,
            LLVMAttribute::SRet => "Indicates that the argument is a structure return pointer."@,
            LLVMAttribute::Align => "Specifies the alignment of the parameter or return value."@,
            LLVMAttribute::AllocSize => "Indicates the allocation size for memory allocation functions."@,
            LLVMAttribute::Allocalign => "Specifies the alignment of memory allocation."@,
            LLVMAttribute::Returned => "Indicates that the argument is also a return value."@,
            LLVMAttribute::ZeroExt => "Indicates that the integer argument should be zero-extended."@,
            LLVMAttribute::SignExt => "Indicates that the integer argument should be sign-extended."@,
            LLVMAttribute::Cold => "Indicates that the function is unlikely to be executed."@,
            LLVMAttribute::Hot => "Indicates that the function is likely to be executed."@,
            LLVMAttribute::NoBuiltin => "Indicates that the function is not a built-in function."@,
            LLVMAttribute::NoRedZone => "Indicates that the function does not use a red zone."@,
            LLVMAttribute::SanitizeAddress => "Enables AddressSanitizer for the function."@,
            LLVMAttribute::SanitizeThread => "Enables ThreadSanitizer for the function."@,
            LLVMAttribute::SanitizeMemory => "Enables MemorySanitizer for the function."@,
            LLVMAttribute::SanitizeHWAddress => "Enables HardwareAddressSanitizer for the function."@,
            LLVMAttribute::StrictFP => "Enables strict floating-point semantics."@,
            LLVMAttribute::StackProtector => "Enables stack protection."@,
            LLVMAttribute::StackProtectorReq => "Requires stack protection."@,
            LLVMAttribute::StackProtectorStrong => "Enables strong stack protection."@,
            LLVMAttribute::UWTable => "Indicates that the function should have an unwind table."@,
            LLVMAttribute::ReturnsTwice => "Indicates that the function may return more than once."@,
            LLVMAttribute::SwiftSelf => "Used in Swift to indicate the self parameter."@,
            LLVMAttribute::SwiftError => "Used in Swift to indicate an error parameter."@,
        }
    }

    /// Whether this attribute carries a value payload when applied.
    pub open spec fn spec_has_value(self) -> bool {
        match self {
            LLVMAttribute::Dereferenceable
            | LLVMAttribute::DereferenceableOrNull
            | LLVMAttribute::Align
            | LLVMAttribute::AllocSize
            | LLVMAttribute::Allocalign => true,
            _ => false,
        }
    }

    /// The raw value-payload entry of the table: the payload's description
    /// for attributes that take a value, and the placeholder text `"None"`
    /// for value-less flags.
    pub open spec fn spec_value_description_str(self) -> Seq<char> {
        match self {
            LLVMAttribute::Dereferenceable => "Integer (size in bytes)"@,
            LLVMAttribute::DereferenceableOrNull => "Integer (size in bytes)"@,
            LLVMAttribute::Align => "Integer (alignment in bytes)"@,
            LLVMAttribute::AllocSize => "Two integers (element size and number of elements)"@,
            LLVMAttribute::Allocalign => "Integer (alignment in bytes)"@,
            _ => "None"@,
        }
    }

    /// Every identifier of the closed set, in declaration order. This is the
    /// sequence that [`LLVMAttribute::enumerate`] returns.
    pub open spec fn spec_enumeration() -> Seq<LLVMAttribute> {
        seq![
            LLVMAttribute::AlwaysInline,
            LLVMAttribute::InlineHint,
            LLVMAttribute::NoReturn,
            LLVMAttribute::NoUnwind,
            LLVMAttribute::ReadNone,
            LLVMAttribute::ReadOnly,
            LLVMAttribute::WriteOnly,
            LLVMAttribute::Speculatable,
            LLVMAttribute::MinSize,
            LLVMAttribute::OptSize,
            LLVMAttribute::NoInline,
            LLVMAttribute::NoCapture,
            LLVMAttribute::NonNull,
            LLVMAttribute::Dereferenceable,
            LLVMAttribute::DereferenceableOrNull,
            LLVMAttribute::SRet,
            LLVMAttribute::Align,
            LLVMAttribute::AllocSize,
            LLVMAttribute::Allocalign,
            LLVMAttribute::Returned,
            LLVMAttribute::ZeroExt,
            LLVMAttribute::SignExt,
            LLVMAttribute::Cold,
            LLVMAttribute::Hot,
            LLVMAttribute::NoBuiltin,
            LLVMAttribute::NoRedZone,
            LLVMAttribute::SanitizeAddress,
            LLVMAttribute::SanitizeThread,
            LLVMAttribute::SanitizeMemory,
            LLVMAttribute::SanitizeHWAddress,
            LLVMAttribute::StrictFP,
            LLVMAttribute::StackProtector,
            LLVMAttribute::StackProtectorReq,
            LLVMAttribute::StackProtectorStrong,
            LLVMAttribute::UWTable,
            LLVMAttribute::ReturnsTwice,
            LLVMAttribute::SwiftSelf,
            LLVMAttribute::SwiftError,
        ]
    }
}

impl LLVMAttribute {
    /// The fixed description of the attribute's semantic effect. Always
    /// non-empty.
    pub fn description(&self) -> (r: &'static str)
        ensures
            r@ == self.spec_description(),
            r@.len() > 0,
    {
        proof {
            laws::lemma_description_nonempty(*self);
        }
        match self {
            LLVMAttribute::AlwaysInline => "Suggests that the function should always be inlined.",
            LLVMAttribute::InlineHint => "Suggests that the function should be inlined if possible.",
            LLVMAttribute::NoReturn => "Indicates that the function does not return.",
            LLVMAttribute::NoUnwind => "Indicates that the function does not unwind the stack.",
            LLVMAttribute::ReadNone => "Indicates that the function does not read or write memory.",
            LLVMAttribute::ReadOnly => "Indicates that the function only reads memory but does not write.",
            LLVMAttribute::WriteOnly => "Indicates that the function only writes memory but does not read.",
            LLVMAttribute::Speculatable => "Indicates that the function can be speculatively executed.",
            LLVMAttribute::MinSize => "Suggests optimizing for minimum code size.",
            LLVMAttribute::OptSize => "Suggests optimizing for code size.",
            LLVMAttribute::NoInline => "Suggests that the function should not be inlined.",
            LLVMAttribute::NoCapture => "Indicates that the pointer argument is not captured.",
            LLVMAttribute::NonNull => "Indicates that the pointer argument is not null.",
            LLVMAttribute::Dereferenceable => "Indicates that the pointer argument is dereferenceable to the given size.",
            LLVMAttribute::DereferenceableOrNull => "Indicates that the pointer argument is either null or dereferenceable to the given size.",
            LLVMAttribute::SRet => "Indicates that the argument is a structure return pointer.",
            LLVMAttribute::Align => "Specifies the alignment of the parameter or return value.",
            LLVMAttribute::AllocSize => "Indicates the allocation size for memory allocation functions.",
            LLVMAttribute::Allocalign => "Specifies the alignment of memory allocation.",
            LLVMAttribute::Returned => "Indicates that the argument is also a return value.",
            LLVMAttribute::ZeroExt => "Indicates that the integer argument should be zero-extended.",
            LLVMAttribute::SignExt => "Indicates that the integer argument should be sign-extended.",
            LLVMAttribute::Cold => "Indicates that the function is unlikely to be executed.",
            LLVMAttribute::Hot => "Indicates that the function is likely to be executed.",
            LLVMAttribute::NoBuiltin => "Indicates that the function is not a built-in function.",
            LLVMAttribute::NoRedZone => "Indicates that the function does not use a red zone.",
            LLVMAttribute::SanitizeAddress => "Enables AddressSanitizer for the function.",
            LLVMAttribute::SanitizeThread => "Enables ThreadSanitizer for the function.",
            LLVMAttribute::SanitizeMemory => "Enables MemorySanitizer for the function.",
            LLVMAttribute::SanitizeHWAddress => "Enables HardwareAddressSanitizer for the function.",
            LLVMAttribute::StrictFP => "Enables strict floating-point semantics.",
            LLVMAttribute::StackProtector => "Enables stack protection.",
            LLVMAttribute::StackProtectorReq => "Requires stack protection.",
            LLVMAttribute::StackProtectorStrong => "Enables strong stack protection.",
            LLVMAttribute::UWTable => "Indicates that the function should have an unwind table.",
            LLVMAttribute::ReturnsTwice => "Indicates that the function may return more than once.",
            LLVMAttribute::SwiftSelf => "Used in Swift to indicate the self parameter.",
            LLVMAttribute::SwiftError => "Used in Swift to indicate an error parameter.",
        }
    }

    /// The description of the value payload the attribute carries when
    /// applied, or `None` for value-less flags.
    pub fn value_description(&self) -> (r: Option<&'static str>)
        ensures
            r is Some <==> self.spec_has_value(),
            r matches Some(s) ==> s@ == self.spec_value_description_str(),
    {
        match self {
            LLVMAttribute::Dereferenceable => Some("Integer (size in bytes)"),
            LLVMAttribute::DereferenceableOrNull => Some("Integer (size in bytes)"),
            LLVMAttribute::Align => Some("Integer (alignment in bytes)"),
            LLVMAttribute::AllocSize => Some("Two integers (element size and number of elements)"),
            LLVMAttribute::Allocalign => Some("Integer (alignment in bytes)"),
            _ => None,
        }
    }

    /// The raw value-payload entry of the table, with the placeholder text
    /// `"None"` for value-less flags.
    pub fn value_description_str(&self) -> (r: &'static str)
        ensures
            r@ == self.spec_value_description_str(),
    {
        match self {
            LLVMAttribute::Dereferenceable => "Integer (size in bytes)",
            LLVMAttribute::DereferenceableOrNull => "Integer (size in bytes)",
            LLVMAttribute::Align => "Integer (alignment in bytes)",
            LLVMAttribute::AllocSize => "Two integers (element size and number of elements)",
            LLVMAttribute::Allocalign => "Integer (alignment in bytes)",
            _ => "None",
        }
    }

    /// The canonical lowercase name of the attribute. Always non-empty.
    pub fn kind_name(&self) -> (r: &'static str)
        ensures
            r@ == self.spec_kind_name(),
            r@.len() > 0,
    {
        proof {
            laws::lemma_kind_name_nonempty(*self);
        }
        match self {
            LLVMAttribute::AlwaysInline => "alwaysinline",
            LLVMAttribute::InlineHint => "inlinehint",
            LLVMAttribute::NoReturn => "noreturn",
            LLVMAttribute::NoUnwind => "nounwind",
            LLVMAttribute::ReadNone => "readnone",
            LLVMAttribute::ReadOnly => "readonly",
            LLVMAttribute::WriteOnly => "writeonly",
            LLVMAttribute::Speculatable => "speculatable",
            LLVMAttribute::MinSize => "minsize",
            LLVMAttribute::OptSize => "optsize",
            LLVMAttribute::NoInline => "noinline",
            LLVMAttribute::NoCapture => "nocapture",
            LLVMAttribute::NonNull => "nonnull",
            LLVMAttribute::Dereferenceable => "dereferenceable",
            LLVMAttribute::DereferenceableOrNull => "dereferenceable_or_null",
            LLVMAttribute::SRet => "sret",
            LLVMAttribute::Align => "align",
            LLVMAttribute::AllocSize => "allocsize",
            LLVMAttribute::Allocalign => "allocalign",
            LLVMAttribute::Returned => "returned",
            LLVMAttribute::ZeroExt => "zeroext",
            LLVMAttribute::SignExt => "signext",
            LLVMAttribute::Cold => "cold",
            LLVMAttribute::Hot => "hot",
            LLVMAttribute::NoBuiltin => "nobuiltin",
            LLVMAttribute::NoRedZone => "noredzone",
            LLVMAttribute::SanitizeAddress => "sanitize_address",
            LLVMAttribute::SanitizeThread => "sanitize_thread",
            LLVMAttribute::SanitizeMemory => "sanitize_memory",
            LLVMAttribute::SanitizeHWAddress => "sanitize_hwaddress",
            LLVMAttribute::StrictFP => "strictfp",
            LLVMAttribute::StackProtector => "stackprotector",
            LLVMAttribute::StackProtectorReq => "stackprotectorreq",
            LLVMAttribute::StackProtectorStrong => "stackprotectorstrong",
            LLVMAttribute::UWTable => "uwtable",
            LLVMAttribute::ReturnsTwice => "returns_twice",
            LLVMAttribute::SwiftSelf => "swiftself",
            LLVMAttribute::SwiftError => "swifterror",
        }
    }
}

impl LLVMAttribute {
    /// All metadata of the attribute in one immutable record. Each field
    /// equals what the corresponding accessor returns.
    pub fn info(&self) -> (r: LLVMAttributeInfo)
        ensures
            r.kind_name@ == self.spec_kind_name(),
            r.description@ == self.spec_description(),
            r.value_description is Some <==> self.spec_has_value(),
            r.value_description matches Some(s) ==> s@ == self.spec_value_description_str(),
    {
        LLVMAttributeInfo {
            kind_name: self.kind_name(),
            description: self.description(),
            value_description: self.value_description(),
        }
    }

    /// Every identifier of the closed set, in declaration order. The result
    /// is the same sequence on every call.
    pub fn enumerate() -> (r: Vec<LLVMAttribute>)
        ensures
            r@ == LLVMAttribute::spec_enumeration(),
    {
        let mut r: Vec<LLVMAttribute> = Vec::new();
        r.push(LLVMAttribute::AlwaysInline);
        r.push(LLVMAttribute::InlineHint);
        r.push(LLVMAttribute::NoReturn);
        r.push(LLVMAttribute::NoUnwind);
        r.push(LLVMAttribute::ReadNone);
        r.push(LLVMAttribute::ReadOnly);
        r.push(LLVMAttribute::WriteOnly);
        r.push(LLVMAttribute::Speculatable);
        r.push(LLVMAttribute::MinSize);
        r.push(LLVMAttribute::OptSize);
        r.push(LLVMAttribute::NoInline);
        r.push(LLVMAttribute::NoCapture);
        r.push(LLVMAttribute::NonNull);
        r.push(LLVMAttribute::Dereferenceable);
        r.push(LLVMAttribute::DereferenceableOrNull);
        r.push(LLVMAttribute::SRet);
        r.push(LLVMAttribute::Align);
        r.push(LLVMAttribute::AllocSize);
        r.push(LLVMAttribute::Allocalign);
        r.push(LLVMAttribute::Returned);
        r.push(LLVMAttribute::ZeroExt);
        r.push(LLVMAttribute::SignExt);
        r.push(LLVMAttribute::Cold);
        r.push(LLVMAttribute::Hot);
        r.push(LLVMAttribute::NoBuiltin);
        r.push(LLVMAttribute::NoRedZone);
        r.push(LLVMAttribute::SanitizeAddress);
        r.push(LLVMAttribute::SanitizeThread);
        r.push(LLVMAttribute::SanitizeMemory);
        r.push(LLVMAttribute::SanitizeHWAddress);
        r.push(LLVMAttribute::StrictFP);
        r.push(LLVMAttribute::StackProtector);
        r.push(LLVMAttribute::StackProtectorReq);
        r.push(LLVMAttribute::StackProtectorStrong);
        r.push(LLVMAttribute::UWTable);
        r.push(LLVMAttribute::ReturnsTwice);
        r.push(LLVMAttribute::SwiftSelf);
        r.push(LLVMAttribute::SwiftError);
        proof {
            assert(r@ =~= LLVMAttribute::spec_enumeration());
        }
        r
    }
}

} // verus!
