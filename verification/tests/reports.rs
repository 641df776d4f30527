use plise::consumable::Consumable;
use plise::html::Html;
use plise::plise::{ColorName, PliseName, PliseType};

fn unit(name: PliseName, color: ColorName, w: u32, h: u32) -> Consumable {
    Consumable::new(PliseType::new(name, color), w, h)
}

#[test]
fn decimal_text() {
    let mut s = String::new();
    plise::numfmt::push_dec(&mut s, 0);
    s.push(' ');
    plise::numfmt::push_dec(&mut s, 10700);
    assert_eq!(s, "0 10700");
}

#[test]
fn signed_decimal_text() {
    let mut s = String::new();
    plise::numfmt::push_dec_signed(&mut s, -304);
    s.push(' ');
    plise::numfmt::push_dec_signed(&mut s, 42);
    assert_eq!(s, "-304 42");
}

#[test]
fn money_text() {
    let mut s = String::new();
    plise::numfmt::push_money(&mut s, 34931);
    s.push(' ');
    plise::numfmt::push_money(&mut s, -5);
    s.push(' ');
    plise::numfmt::push_money(&mut s, 700);
    assert_eq!(s, "349.31 -0.05 7.00");
}

#[test]
fn skeleton_wraps_the_body() {
    let page = Html::wrap_with_skeleton("BODY");
    assert!(page.starts_with("<!DOCTYPE html>"));
    assert!(page.contains("<body>\nBODY\n</body>"));
    assert!(page.ends_with("</html>"));
}

#[test]
fn measurement_row_of_the_default_unit() {
    let c = Consumable::default();
    let row = c.generate_wh_html_table(1);
    assert_eq!(
        row,
        "\n    <tr>\n        <td>1</td>\n        <td>40x40</td>\n        <td>Klasik</td>\n        <td>Beyaz</td>\n    </tr>\n"
    );
}

#[test]
fn quantity_row_lists_the_derived_quantities() {
    let c = unit(PliseName::Klasik, ColorName::Beyaz, 100, 100);
    let row = c.generate_html_table(3);
    assert_eq!(
        row,
        "\n    <tr>\n        <td>3</td>\n        <td>Klasik</td>\n        <td>Beyaz</td>\n        <td>143</td>\n        <td>37</td>\n        <td>10000</td>\n        <td>190</td>\n        <td>4</td>\n        <td>2</td>\n        <td>4</td>\n        <td>2</td>\n        <td>2</td>\n    </tr>\n"
    );
}

#[test]
fn consumables_document_holds_rows_total_and_header() {
    let c = unit(PliseName::Klasik, ColorName::Beyaz, 100, 100);
    let rows = c.generate_html_table(1);
    let page = Html::create_consumables_html(&rows, 34931, "Ali", "11.10.2026");
    assert!(page.contains("SARF MALZEME TABLOSU"));
    assert!(page.contains("Ali"));
    assert!(page.contains("11.10.2026"));
    assert!(page.contains(&rows));
    assert!(page.contains("349.31 TL"));
}

#[test]
fn price_document_computes_the_tax_inclusive_figure() {
    let c = unit(PliseName::Klasik, ColorName::Beyaz, 100, 100);
    let rows = c.generate_wh_html_table(1);
    let page = Html::create_price_html(&rows, 41917, 20, "Veli", "11.10.2026");
    assert!(page.contains("Toplam Fiyat: 419.17 TL"));
    assert!(page.contains("KDV (%) 20"));
    // 419.17 plus 20 percent, rounded to the cent: 503.00.
    assert!(page.contains("Kdv Dahil Fiyat: 503.00"));
    assert!(page.contains("Veli"));
}
