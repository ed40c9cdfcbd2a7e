use rusty_scheme::value::{
    Kind, SchemeError, Tags, Value, FIXNUM_MAX, FIXNUM_MIN, FUNCTION_TAG, NUM_TAG, NUM_TAG_2,
    PAIR_TAG, RUST_DATA_TAG, RUST_FUNC_TAG, SYMBOL_TAG, VECTOR_TAG,
};

fn all_tags() -> Vec<(u64, Tags)> {
    vec![
        (NUM_TAG, Tags::Num),
        (RUST_FUNC_TAG, Tags::RustFunc),
        (FUNCTION_TAG, Tags::Function),
        (VECTOR_TAG, Tags::Vector),
        (NUM_TAG_2, Tags::Num2),
        (RUST_DATA_TAG, Tags::RustData),
        (SYMBOL_TAG, Tags::Symbol),
        (PAIR_TAG, Tags::Pair),
    ]
}

#[test]
fn tag_round_trip_all_patterns() {
    for (pattern, expected) in all_tags() {
        assert_eq!(Value::new(pattern).tag(), expected);
        assert_eq!(Value::new(pattern).raw_tag(), pattern);
        // The same pattern with pointer bits above it selects the same kind.
        assert_eq!(Value::new(0x1230 | pattern).tag(), expected);
        assert_eq!(Value::new(0x1230 | pattern).raw_tag(), pattern);
    }
}

#[test]
fn fixnum_round_trip_bounds() {
    for n in [
        0i64,
        1,
        -1,
        2,
        -2,
        41,
        -57,
        FIXNUM_MIN,
        FIXNUM_MIN + 1,
        FIXNUM_MAX,
        FIXNUM_MAX - 1,
    ] {
        assert_eq!(Value::fixnum(n).as_fixnum(), Ok(n));
    }
}

#[test]
fn fixnum_zero_encodes_as_zero_word() {
    assert_eq!(Value::fixnum(0).get(), 0);
    assert_eq!(Value::fixnum(1).get(), 4);
}

#[test]
fn fixnum_extremes_encode_to_exact_words() {
    assert_eq!(Value::fixnum(FIXNUM_MIN).get(), 0x8000_0000_0000_0000);
    assert_eq!(Value::fixnum(FIXNUM_MAX).get(), 0x7FFF_FFFF_FFFF_FFFC);
    assert_eq!(Value::fixnum(-1).get(), 0xFFFF_FFFF_FFFF_FFFC);
}

#[test]
fn fixnum_sign_selects_the_two_fixnum_tags() {
    // Both fixnum tag patterns occur: the payload's low bit lands in
    // the third tag bit.
    assert_eq!(Value::fixnum(2).raw_tag(), NUM_TAG);
    assert_eq!(Value::fixnum(1).raw_tag(), NUM_TAG_2);
    assert!(Value::fixnum(-1).fixnump());
    assert!(Value::fixnum(FIXNUM_MIN).fixnump());
}

#[test]
fn as_fixnum_rejects_non_fixnums() {
    for (pattern, _) in all_tags() {
        let v = Value::new(0x40 | pattern);
        if pattern == NUM_TAG || pattern == NUM_TAG_2 {
            assert!(v.as_fixnum().is_ok());
        } else {
            assert_eq!(v.as_fixnum(), Err(SchemeError::NotANumber));
        }
    }
}

#[test]
fn both_fixnums_exhaustive_over_tag_pairs() {
    for (a_tag, _) in all_tags() {
        for (b_tag, _) in all_tags() {
            let a = Value::new(0x100 | a_tag);
            let b = Value::new(0x3280 | b_tag);
            assert_eq!(a.both_fixnums(&b), a.fixnump() && b.fixnump());
        }
    }
}

#[test]
fn fixnump_accepts_exactly_the_two_fixnum_tags() {
    for (pattern, _) in all_tags() {
        let v = Value::new(0x88 | pattern);
        assert_eq!(v.fixnump(), pattern == NUM_TAG || pattern == NUM_TAG_2);
    }
}

#[test]
fn self_evaluating_false_only_for_symbol_and_pair() {
    for (pattern, tag) in all_tags() {
        let v = Value::new(0x88 | pattern);
        assert_eq!(
            v.self_evaluating(),
            tag != Tags::Symbol && tag != Tags::Pair
        );
    }
}

#[test]
fn leafp_false_only_for_vector_and_pair() {
    for (pattern, tag) in all_tags() {
        let v = Value::new(0x88 | pattern);
        assert_eq!(v.leafp(), tag != Tags::Vector && tag != Tags::Pair);
    }
}

#[test]
fn pairp_true_only_for_pair_tag() {
    for (pattern, tag) in all_tags() {
        let v = Value::new(0x88 | pattern);
        assert_eq!(v.pairp(), tag == Tags::Pair);
    }
}

#[test]
fn kind_decodes_pointers_and_fixnums() {
    assert_eq!(Value::new(5 * 8 | PAIR_TAG).kind(), Kind::Pair(5));
    assert_eq!(Value::new(9 * 8 | VECTOR_TAG).kind(), Kind::Vector(9));
    assert_eq!(Value::fixnum(-7).kind(), Kind::Fixnum(-7));
    assert_eq!(Value::fixnum(12).kind(), Kind::Fixnum(12));
}

#[test]
fn get_set_overwrite_the_word() {
    let mut v = Value::new(17);
    assert_eq!(v.get(), 17);
    v.set(Value::new(25));
    assert_eq!(v.get(), 25);
}
