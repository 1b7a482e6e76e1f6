use llvm_attributes::LLVMAttribute;

#[test]
fn every_identifier_has_complete_metadata() {
    for attr in LLVMAttribute::enumerate() {
        assert!(!attr.kind_name().is_empty());
        assert!(!attr.description().is_empty());
        assert!(!attr.value_description_str().is_empty());
        // info() never fails and always carries a description.
        assert!(!attr.info().description.is_empty());
    }
}

#[test]
fn canonical_names_are_unique() {
    let attrs = LLVMAttribute::enumerate();
    for (i, a) in attrs.iter().enumerate() {
        for b in attrs.iter().skip(i + 1) {
            assert_ne!(a.kind_name(), b.kind_name());
        }
    }
}

#[test]
fn enumeration_order_is_stable() {
    let first = LLVMAttribute::enumerate();
    let second = LLVMAttribute::enumerate();
    assert_eq!(first.len(), second.len());
    for (a, b) in first.iter().zip(second.iter()) {
        assert_eq!(a, b);
    }
}

#[test]
fn enumeration_lists_each_identifier_once() {
    let attrs = LLVMAttribute::enumerate();
    for (i, a) in attrs.iter().enumerate() {
        for b in attrs.iter().skip(i + 1) {
            assert_ne!(a, b);
        }
    }
}

#[test]
fn value_shapes_are_consistent() {
    let by_name = |name: &str| -> LLVMAttribute {
        LLVMAttribute::enumerate()
            .into_iter()
            .find(|a| a.kind_name() == name)
            .expect("canonical name not found in the enumeration")
    };
    // A sample of value-less flags carries no value description.
    assert_eq!(by_name("noreturn").value_description(), None);
    assert_eq!(by_name("nounwind").value_description(), None);
    assert_eq!(by_name("cold").value_description(), None);
    // A sample of valued attributes describes an integer payload.
    let align = by_name("align").value_description().unwrap();
    assert!(!align.is_empty());
    assert!(align.contains("Integer"));
    // The allocation-size attribute mentions two integers.
    let allocsize = by_name("allocsize").value_description().unwrap();
    assert!(allocsize.contains("Two integers"));
    assert_eq!(allocsize, "Two integers (element size and number of elements)");
}

#[test]
fn info_round_trips_the_accessors() {
    for attr in LLVMAttribute::enumerate() {
        let info = attr.info();
        assert_eq!(info.kind_name, attr.kind_name());
        assert_eq!(info.description, attr.description());
        assert_eq!(info.value_description, attr.value_description());
    }
}

#[test]
fn always_inline_entry() {
    assert_eq!(LLVMAttribute::AlwaysInline.kind_name(), "alwaysinline");
    assert_eq!(LLVMAttribute::AlwaysInline.value_description(), None);
    assert_eq!(LLVMAttribute::AlwaysInline.value_description_str(), "None");
    assert_eq!(
        LLVMAttribute::AlwaysInline.description(),
        "Suggests that the function should always be inlined."
    );
}

#[test]
fn dereferenceable_or_null_entry() {
    assert_eq!(
        LLVMAttribute::DereferenceableOrNull.kind_name(),
        "dereferenceable_or_null"
    );
    assert_eq!(
        LLVMAttribute::DereferenceableOrNull.value_description(),
        Some("Integer (size in bytes)")
    );
    assert_eq!(
        LLVMAttribute::DereferenceableOrNull.value_description_str(),
        "Integer (size in bytes)"
    );
}

#[test]
fn enumeration_holds_known_identifiers_in_fixed_order() {
    let first = LLVMAttribute::enumerate();
    let second = LLVMAttribute::enumerate();
    for attrs in [first, second] {
        let pos = |want: LLVMAttribute| -> usize {
            attrs
                .iter()
                .position(|a| *a == want)
                .expect("identifier missing from the enumeration")
        };
        let always_inline = pos(LLVMAttribute::AlwaysInline);
        let no_return = pos(LLVMAttribute::NoReturn);
        let swift_error = pos(LLVMAttribute::SwiftError);
        assert!(always_inline < no_return);
        assert!(no_return < swift_error);
    }
}

#[test]
fn value_description_agrees_with_raw_entry() {
    for attr in LLVMAttribute::enumerate() {
        match attr.value_description() {
            Some(v) => {
                assert_ne!(v, "None");
                assert_eq!(v, attr.value_description_str());
            }
            None => assert_eq!(attr.value_description_str(), "None"),
        }
    }
}

#[test]
fn known_canonical_names_are_present() {
    let names: Vec<&'static str> = LLVMAttribute::enumerate()
        .into_iter()
        .map(|a| a.kind_name())
        .collect();
    for want in [
        "alwaysinline",
        "inlinehint",
        "noreturn",
        "nounwind",
        "readnone",
        "readonly",
        "writeonly",
        "speculatable",
        "dereferenceable",
        "dereferenceable_or_null",
        "sret",
        "align",
        "allocsize",
        "allocalign",
        "sanitize_address",
        "sanitize_thread",
        "sanitize_memory",
        "sanitize_hwaddress",
        "strictfp",
        "stackprotector",
        "stackprotectorreq",
        "stackprotectorstrong",
        "uwtable",
        "returns_twice",
        "swiftself",
        "swifterror",
    ] {
        assert!(names.contains(&want), "missing canonical name");
    }
}

#[test]
fn enumeration_has_expected_size() {
    assert_eq!(LLVMAttribute::enumerate().len(), 38);
}
