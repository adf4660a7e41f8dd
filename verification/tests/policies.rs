use bounded_arith::bounded::{BoundedInt, I16, I64, I8, U16, U32, U64, U8};

fn u8v(v: i128) -> U8 {
    U8::new(v).unwrap()
}

fn i8v(v: i128) -> I8 {
    I8::new(v).unwrap()
}

#[test]
fn checked_add_255_1_is_none() {
    assert_eq!(u8v(255).checked_add(u8v(1)), None);
}

#[test]
fn wrapping_add_255_1_is_zero() {
    assert_eq!(u8v(255).wrapping_add(u8v(1)), u8v(0));
    assert_eq!(u8v(255).wrapping_add(u8v(1)).value(), 0);
}

#[test]
fn overflowing_add_255_1_is_zero_and_flag() {
    assert_eq!(u8v(255).overflowing_add(u8v(1)), (u8v(0), true));
}

#[test]
fn saturating_add_255_1_is_255() {
    assert_eq!(u8v(255).saturating_add(u8v(1)), u8v(255));
}

#[test]
fn saturating_sub_0_1_is_zero() {
    assert_eq!(u8v(0).saturating_sub(u8v(1)), u8v(0));
}

#[test]
fn checked_add_200_50_is_some_250() {
    assert_eq!(u8v(200).checked_add(u8v(50)), Some(u8v(250)));
}

#[test]
fn checked_add_200_55_is_some_255() {
    assert_eq!(u8v(200).checked_add(u8v(55)), Some(u8v(255)));
    assert_eq!(u8v(200).checked_add(u8v(56)), None);
}

#[test]
fn wrapping_sub_0_1_is_255() {
    assert_eq!(u8v(0).wrapping_sub(u8v(1)).value(), 255);
}

#[test]
fn wrapping_add_255_2_is_one() {
    assert_eq!(u8v(255).wrapping_add(u8v(2)).value(), 1);
}

#[test]
fn overflowing_add_200_50_keeps_flag_down() {
    assert_eq!(u8v(200).overflowing_add(u8v(50)), (u8v(250), false));
}

#[test]
fn saturating_add_200_100_is_255() {
    assert_eq!(u8v(200).saturating_add(u8v(100)).value(), 255);
}

#[test]
fn balance_250_plus_10_under_three_policies() {
    let balance = u8v(250);
    let deposit = u8v(10);
    assert_eq!(balance.checked_add(deposit), None);
    assert_eq!(balance.saturating_add(deposit).value(), 255);
    assert_eq!(balance.wrapping_add(deposit).value(), 4);
}

#[test]
fn checked_sub_reports_underflow() {
    assert_eq!(u8v(0).checked_sub(u8v(1)), None);
    assert_eq!(u8v(7).checked_sub(u8v(7)), Some(u8v(0)));
    assert_eq!(u8v(255).checked_sub(u8v(1)), Some(u8v(254)));
}

#[test]
fn overflowing_sub_wraps_and_flags() {
    assert_eq!(u8v(0).overflowing_sub(u8v(1)), (u8v(255), true));
    assert_eq!(u8v(3).overflowing_sub(u8v(5)), (u8v(254), true));
    assert_eq!(u8v(5).overflowing_sub(u8v(3)), (u8v(2), false));
}

#[test]
fn signed_add_wraps_from_max_to_min() {
    assert_eq!(i8v(127).wrapping_add(i8v(1)).value(), -128);
    assert_eq!(i8v(127).overflowing_add(i8v(1)), (i8v(-128), true));
    assert_eq!(i8v(127).checked_add(i8v(1)), None);
    assert_eq!(i8v(127).saturating_add(i8v(1)).value(), 127);
}

#[test]
fn signed_sub_wraps_from_min_to_max() {
    assert_eq!(i8v(-128).wrapping_sub(i8v(1)).value(), 127);
    assert_eq!(i8v(-128).overflowing_sub(i8v(1)), (i8v(127), true));
    assert_eq!(i8v(-128).checked_sub(i8v(1)), None);
    assert_eq!(i8v(-128).saturating_sub(i8v(1)).value(), -128);
}

#[test]
fn signed_extremes_add_and_sub() {
    assert_eq!(i8v(-128).wrapping_add(i8v(-128)).value(), 0);
    assert_eq!(i8v(-128).saturating_add(i8v(-128)).value(), -128);
    assert_eq!(i8v(127).wrapping_add(i8v(127)).value(), -2);
    assert_eq!(i8v(127).wrapping_sub(i8v(-128)).value(), -1);
    assert_eq!(i8v(127).saturating_sub(i8v(-128)).value(), 127);
    assert_eq!(i8v(-128).wrapping_sub(i8v(127)).value(), 1);
    assert_eq!(i8v(-128).saturating_sub(i8v(127)).value(), -128);
}

#[test]
fn signed_in_range_results_are_exact() {
    assert_eq!(i8v(-50).checked_add(i8v(25)), Some(i8v(-25)));
    assert_eq!(i8v(-50).wrapping_sub(i8v(25)).value(), -75);
    assert_eq!(i8v(100).overflowing_sub(i8v(-27)), (i8v(127), false));
    assert_eq!(i8v(-100).saturating_sub(i8v(28)).value(), -128);
}

#[test]
fn agreement_holds_for_every_u8_pair_in_range() {
    for a in 0..=255i128 {
        for b in 0..=255i128 {
            let x = u8v(a);
            let y = u8v(b);
            if a + b <= 255 {
                let r = u8v(a + b);
                assert_eq!(x.wrapping_add(y), r);
                assert_eq!(x.checked_add(y), Some(r));
                assert_eq!(x.overflowing_add(y), (r, false));
                assert_eq!(x.saturating_add(y), r);
            }
            if a - b >= 0 {
                let r = u8v(a - b);
                assert_eq!(x.wrapping_sub(y), r);
                assert_eq!(x.checked_sub(y), Some(r));
                assert_eq!(x.overflowing_sub(y), (r, false));
                assert_eq!(x.saturating_sub(y), r);
            }
        }
    }
}

#[test]
fn overflow_is_detected_for_every_u8_pair_out_of_range() {
    for a in 0..=255i128 {
        for b in 0..=255i128 {
            let x = u8v(a);
            let y = u8v(b);
            if a + b > 255 {
                assert_eq!(x.checked_add(y), None);
                assert!(x.overflowing_add(y).1);
                assert_eq!(x.wrapping_add(y).value(), a + b - 256);
            }
            if a - b < 0 {
                assert_eq!(x.checked_sub(y), None);
                assert!(x.overflowing_sub(y).1);
                assert_eq!(x.wrapping_sub(y).value(), a - b + 256);
            }
        }
    }
}

#[test]
fn overflowing_value_is_the_wrapped_value_for_every_i8_pair() {
    for a in -128..=127i128 {
        for b in -128..=127i128 {
            let x = i8v(a);
            let y = i8v(b);
            assert_eq!(x.overflowing_add(y).0, x.wrapping_add(y));
            assert_eq!(x.overflowing_sub(y).0, x.wrapping_sub(y));
            assert_eq!(x.overflowing_add(y).1, x.checked_add(y).is_none());
            assert_eq!(x.overflowing_sub(y).1, x.checked_sub(y).is_none());
            assert_eq!(x.wrapping_add(y).value(), (a + b + 128).rem_euclid(256) - 128);
            assert_eq!(x.wrapping_sub(y).value(), (a - b + 128).rem_euclid(256) - 128);
        }
    }
}

#[test]
fn saturation_stops_at_the_bounds_for_every_i8_pair() {
    for a in -128..=127i128 {
        for b in -128..=127i128 {
            let x = i8v(a);
            let y = i8v(b);
            assert_eq!(x.saturating_add(y).value(), (a + b).clamp(-128, 127));
            assert_eq!(x.saturating_sub(y).value(), (a - b).clamp(-128, 127));
        }
    }
}

#[test]
fn wraparound_identity_in_each_unsigned_width() {
    assert_eq!(U8::max_value().wrapping_add(u8v(1)).value(), 0);
    assert_eq!(u8v(0).wrapping_sub(u8v(1)), U8::max_value());
    let one16 = U16::new(1).unwrap();
    assert_eq!(U16::max_value().wrapping_add(one16).value(), 0);
    assert_eq!(U16::min_value().wrapping_sub(one16), U16::max_value());
    let one32 = U32::new(1).unwrap();
    assert_eq!(U32::max_value().wrapping_add(one32).value(), 0);
    assert_eq!(U32::min_value().wrapping_sub(one32), U32::max_value());
    let one64 = U64::new(1).unwrap();
    assert_eq!(U64::max_value().wrapping_add(one64).value(), 0);
    assert_eq!(U64::min_value().wrapping_sub(one64), U64::max_value());
    let one1 = BoundedInt::<1, false>::new(1).unwrap();
    assert_eq!(one1.wrapping_add(one1).value(), 0);
    assert_eq!(BoundedInt::<1, false>::min_value().wrapping_sub(one1), one1);
}

#[test]
fn sixty_four_bit_edges() {
    let max = U64::max_value();
    assert_eq!(max.value(), 18_446_744_073_709_551_615);
    assert_eq!(max.wrapping_add(max).value(), 18_446_744_073_709_551_614);
    assert_eq!(max.checked_add(max), None);
    assert_eq!(max.saturating_add(max), max);
    assert_eq!(U64::min_value().saturating_sub(max), U64::min_value());
    let low = I64::min_value();
    let high = I64::max_value();
    assert_eq!(low.value(), -9_223_372_036_854_775_808);
    assert_eq!(high.value(), 9_223_372_036_854_775_807);
    assert_eq!(low.wrapping_add(low).value(), 0);
    assert_eq!(high.wrapping_sub(low).value(), -1);
    assert_eq!(low.overflowing_sub(high), (I64::new(1).unwrap(), true));
    assert_eq!(high.saturating_sub(low), high);
    assert_eq!(low.saturating_sub(high), low);
    assert_eq!(low.checked_add(high), Some(I64::new(-1).unwrap()));
}

#[test]
fn sixteen_bit_signed_policies() {
    let a = I16::new(32_000).unwrap();
    let b = I16::new(1_000).unwrap();
    assert_eq!(a.wrapping_add(b).value(), -32_536);
    assert_eq!(a.checked_add(b), None);
    assert_eq!(a.overflowing_add(b), (I16::new(-32_536).unwrap(), true));
    assert_eq!(a.saturating_add(b).value(), 32_767);
    assert_eq!(a.checked_sub(b), Some(I16::new(31_000).unwrap()));
}

#[test]
fn odd_width_wraps_at_its_own_modulus() {
    let a = BoundedInt::<3, false>::new(6).unwrap();
    let b = BoundedInt::<3, false>::new(5).unwrap();
    assert_eq!(a.wrapping_add(b).value(), 3);
    assert_eq!(a.saturating_add(b).value(), 7);
    assert_eq!(b.wrapping_sub(a).value(), 7);
    let c = BoundedInt::<3, true>::new(3).unwrap();
    let d = BoundedInt::<3, true>::new(-4).unwrap();
    assert_eq!(c.wrapping_add(c).value(), -2);
    assert_eq!(d.wrapping_sub(c).value(), 1);
    assert_eq!(d.saturating_sub(c).value(), -4);
    assert_eq!(c.checked_sub(d), None);
}
