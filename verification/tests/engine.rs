use plise::consumable::Consumable;
use plise::plise::{ColorName, PliseName, PliseType};
use plise::price::Price;

fn unit(name: PliseName, color: ColorName, w: u32, h: u32) -> Consumable {
    Consumable::new(PliseType::new(name, color), w, h)
}

#[test]
fn default_type_is_klasik_white() {
    let t = PliseType::default();
    assert_eq!(t.get_name(), PliseName::Klasik);
    assert_eq!(t.get_color(), ColorName::Beyaz);
    assert_eq!(t.get_kasa_weight(), 2200);
    assert_eq!(t.get_kanat_weight(), 2400);
}

#[test]
fn set_name_changes_only_coefficients_and_name() {
    let mut t = PliseType::new(PliseName::Klasik, ColorName::Ahsap);
    t.set_name(PliseName::Genis);
    assert_eq!(t.get_name(), PliseName::Genis);
    assert_eq!(t.get_color(), ColorName::Ahsap);
    assert_eq!(t.get_kasa_weight(), 3204);
    assert_eq!(t.get_kanat_weight(), 2400);
    t.set_name(PliseName::Ince);
    assert_eq!(t.get_name(), PliseName::Ince);
    assert_eq!(t.get_color(), ColorName::Ahsap);
    assert_eq!(t.get_kasa_weight(), 1314);
    assert_eq!(t.get_kanat_weight(), 2070);
    t.set_name(PliseName::Klasik);
    assert_eq!(t.get_kasa_weight(), 2200);
    assert_eq!(t.get_kanat_weight(), 2400);
    assert_eq!(t.get_color(), ColorName::Ahsap);
}

#[test]
fn set_color_changes_only_color() {
    let mut t = PliseType::new(PliseName::Genis, ColorName::Beyaz);
    t.set_color(ColorName::Boya);
    assert_eq!(t.get_name(), PliseName::Genis);
    assert_eq!(t.get_color(), ColorName::Boya);
    assert_eq!(t.get_kasa_weight(), 3204);
    assert_eq!(t.get_kanat_weight(), 2400);
}

#[test]
fn hardware_counts_narrow_unit() {
    for w in [1u32, 40, 100, 149] {
        let c = unit(PliseName::Klasik, ColorName::Beyaz, w, 80);
        assert_eq!(c.get_teker_adet(), 2);
        assert_eq!(c.get_klips_adet(), 4);
        assert_eq!(c.get_stop_adet(), 2);
        assert_eq!(c.get_donus_adet(), 2);
        assert_eq!(c.get_kose_adet(), 4);
    }
}

#[test]
fn hardware_counts_wide_unit() {
    for w in [150u32, 151, 320, 500] {
        let c = unit(PliseName::Klasik, ColorName::Beyaz, w, 80);
        assert_eq!(c.get_teker_adet(), 4);
        assert_eq!(c.get_klips_adet(), 8);
        assert_eq!(c.get_stop_adet(), 4);
        assert_eq!(c.get_donus_adet(), 0);
        assert_eq!(c.get_kose_adet(), 4);
    }
}

#[test]
fn quantities_of_the_hundred_by_hundred_unit() {
    let c = unit(PliseName::Klasik, ColorName::Beyaz, 100, 100);
    assert_eq!(c.get_kasa_cm(), 143);
    assert_eq!(c.get_kanat_cm(), 37);
    assert_eq!(c.get_tul_cm_squared(), 10000);
    assert_eq!(c.get_serit_cm(), 190);
}

#[test]
fn sash_and_strip_double_for_wide_units() {
    let narrow = unit(PliseName::Klasik, ColorName::Beyaz, 149, 100);
    let wide = unit(PliseName::Klasik, ColorName::Beyaz, 150, 100);
    // (100 - 8) * 0.4 = 36.8, rounded 37; doubled before rounding: 73.6 -> 74.
    assert_eq!(narrow.get_kanat_cm(), 37);
    assert_eq!(wide.get_kanat_cm(), 74);
    assert_eq!(narrow.get_serit_cm(), 190);
    assert_eq!(wide.get_serit_cm(), 380);
}

#[test]
fn quantities_of_tiny_units() {
    // Below the 8 cm the sash formula subtracts, the sash length is
    // negative; at exactly 8 cm it is zero.
    let c = unit(PliseName::Klasik, ColorName::Beyaz, 40, 5);
    assert_eq!(c.get_kanat_cm(), -1);
    assert_eq!(c.get_serit_cm(), 0);
    let c = unit(PliseName::Klasik, ColorName::Beyaz, 40, 8);
    assert_eq!(c.get_kanat_cm(), 0);
    // A unit smaller than the 5 cm the frame formula subtracts gets a
    // negative frame length: 2 * (1 + 1 - 5) * 2200 / 6000 = -2.2,
    // rounded toward positive infinity to -2.
    let c = unit(PliseName::Klasik, ColorName::Beyaz, 1, 1);
    assert_eq!(c.get_kasa_cm(), -2);
    assert_eq!(c.get_tul_cm_squared(), 1);
}

#[test]
fn frame_length_rounds_to_the_nearest_centimeter() {
    // 2 * (60 + 50 - 5) * 2200 / 6000 = 77.0 exactly.
    let c = unit(PliseName::Klasik, ColorName::Beyaz, 60, 50);
    assert_eq!(c.get_kasa_cm(), 77);
    // Ince: 2 * (40 + 40 - 5) * 1314 / 6000 = 32.85, rounded to 33.
    let c = unit(PliseName::Ince, ColorName::Beyaz, 40, 40);
    assert_eq!(c.get_kasa_cm(), 33);
}

#[test]
fn line_cost_of_the_reference_scenario() {
    // Klasik in white, 100 by 100 cm, default book: the cost comes to
    // exactly 349.31.
    let book = Price::default();
    let c = unit(PliseName::Klasik, ColorName::Beyaz, 100, 100);
    assert_eq!(book.calculate_single_price(&c), 34931);
}

#[test]
fn order_totals_of_one_reference_line() {
    let book = Price::default();
    let lines = vec![unit(PliseName::Klasik, ColorName::Beyaz, 100, 100)];
    let (cost, price, price_kdv) = book.calculate_prices(&lines, 1);
    assert_eq!(cost, 34931);
    // 349.31 plus 20 percent profit: 419.17; plus 20 percent tax: 503.00.
    assert_eq!(price, 41917);
    assert_eq!(price_kdv, 50300);
}

#[test]
fn order_totals_sum_over_the_participating_lines() {
    let book = Price::default();
    let a = unit(PliseName::Klasik, ColorName::Beyaz, 100, 100);
    let b = unit(PliseName::Ince, ColorName::Ahsap, 200, 250);
    let lines = vec![a, b, a];
    let (cost2, _, _) = book.calculate_prices(&lines, 2);
    let (only_a, _, _) = book.calculate_prices(&vec![a], 1);
    let (only_b, _, _) = book.calculate_prices(&vec![b], 1);
    assert_eq!(cost2, only_a + only_b);
}

#[test]
fn order_totals_ignore_lines_past_the_count() {
    let book = Price::default();
    let a = unit(PliseName::Klasik, ColorName::Beyaz, 100, 100);
    let b = unit(PliseName::Genis, ColorName::Boya, 400, 260);
    let with_excess = book.calculate_prices(&vec![a, b, b, b], 1);
    let alone = book.calculate_prices(&vec![a], 1);
    assert_eq!(with_excess, alone);
}

#[test]
fn order_totals_of_an_empty_order_are_zero() {
    let book = Price::default();
    let lines = vec![
        unit(PliseName::Genis, ColorName::Boya, 320, 260),
        unit(PliseName::Ince, ColorName::Ahsap, 77, 12),
    ];
    assert_eq!(book.calculate_prices(&lines, 0), (0, 0, 0));
    assert_eq!(book.calculate_prices(&Vec::new(), 0), (0, 0, 0));
}

#[test]
fn line_cost_grows_with_height_and_width() {
    let book = Price::default();
    let mut last = i64::MIN;
    for h in [10u32, 60, 100, 180, 300] {
        let c = unit(PliseName::Genis, ColorName::Boya, 120, h);
        let cost = book.calculate_single_price(&c);
        assert!(cost >= last);
        last = cost;
    }
    let mut last = i64::MIN;
    for w in [10u32, 100, 149, 150, 151, 400] {
        let c = unit(PliseName::Genis, ColorName::Boya, w, 100);
        let cost = book.calculate_single_price(&c);
        assert!(cost >= last);
        last = cost;
    }
}

#[test]
fn profit_entry_follows_the_selected_family() {
    let mut book = Price::default();
    book.genis_kar = 40;
    book.plise_name = PliseName::Genis;
    let lines = vec![unit(PliseName::Klasik, ColorName::Beyaz, 100, 100)];
    let (cost, price, _) = book.calculate_prices(&lines, 1);
    assert_eq!(cost, 34931);
    // 349.31 plus 40 percent: 489.03 (rounded half up from 489.034).
    assert_eq!(price, 48903);
}

#[test]
fn visibility_starts_closed() {
    let v = plise::Visibility::new();
    assert!(!v.show_settings);
    assert!(!v.show_maliyet);
    assert!(!v.show_price);
}

#[test]
fn book_cap_check() {
    let mut book = Price::default();
    assert!(book.wf_check());
    book.tul_price = 100_000_001;
    assert!(!book.wf_check());
}
