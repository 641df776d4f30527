//! The two report documents, as text.
//!
//! The library builds the full text of the material table and the price
//! table; writing the files and opening them in a viewer is the caller's
//! business.  The current date and the customer name are likewise handed
//! in by the caller.

use vstd::prelude::*;

verus! {

use crate::arith::{lemma_mul_bounds_signed, lemma_rnd_monotone, lemma_rnd_unfold, rnd,
    round_div_wide};
use crate::numfmt::{push_dec, push_money, spec_dec, spec_money};
use crate::price::MAX_PERCENT;

/// The fixed page frame around a document body.
pub open spec fn spec_skeleton(body: Seq<char>) -> Seq<char> {
    "<!DOCTYPE html>\n<html lang=\"en\">\n<head>\n    <meta charset=\"UTF-8\">\n    <title>Plise Measurements</title>\n    <style>\n        table {\n            width: 100%;\n            border-collapse: collapse;\n        }\n        th, td {\n            border: 1px solid black;\n            padding: 8px;\n            text-align: left;\n        }\n        th {\n            background-color: #f2f2f2;\n        }\n    </style>\n</head>\n<body>\n"@
        + body + "\n</body>\n</html>"@
}

/// The material table around the given rows.
pub open spec fn spec_consumables_table(
    rows: Seq<char>,
    maliyet: int,
    client: Seq<char>,
    date: Seq<char>,
) -> Seq<char> {
    "\n<table>\n    <tr>\n        <th colspan=\"12\", style=\"text-align: center;\">DOĞUŞ SİNEKLİK SARF MALZEME TABLOSU</th>\n    </tr>\n    <tr>\n        <th style=\"border-right: none;\">Müşteri Adı:</th>\n        <th style=\"border-left: none;\">"@
        + client
        + "</th>\n        <th colspan=\"8\"></th>\n        <th style=\"border-right: none;\">Tarih:</th>\n        <th style=\"border-left: none;\">"@
        + date
        + "</th>\n    </tr>\n    <tr>\n        <th>Sıra</th>\n        <th>Plise Tipi</th>\n        <th>Renk Tipi</th>\n        <th>Kasa (cm)</th>\n        <th>Kanat (cm)</th>\n        <th>Tül (cm^2)</th>\n        <th>Şerit (cm)</th>\n        <th>Köşe Adet</th>\n        <th>Teker Adet</th>\n        <th>Klips Adet</th>\n        <th>Stop Adet</th>\n        <th>Dönüş Adet</th>\n    </tr>\n"@
        + rows
        + "\n<tr>\n<td colspan=\"10\"></td>\n<td style=\"border-right: none;\">Toplam Maliyet Fiyatı:</td>\n<td style=\"border-left: none;\">"@
        + spec_money(maliyet) + " TL</td>\n</tr>\n</table>\n"@
}

/// The price table around the given rows, with the tax-inclusive price
/// derived from the given price and percentage by the engine's rounding
/// policy.
pub open spec fn spec_price_table(
    rows: Seq<char>,
    price: int,
    kdv: int,
    client: Seq<char>,
    date: Seq<char>,
) -> Seq<char> {
    "\n<h2>Plise Fiyat Tablosu</h2>\n<table>\n    <tr>\n        <th colspan=\"7\", style=\"text-align: center;\">DOĞUŞ SİNEKLİK ÜCRET TABLOSU</th>\n    </tr>\n    <tr>\n        <th>Müşteri Adı: "@
        + client + "</th>\n        <th colspan=\"2\"></th>\n        <th style=\"text-align: right;\">Tarih: "@
        + date
        + "</th>\n    </tr>\n    <tr>\n        <th>Sıra</th>\n        <th>Plise Ölçüsü</th>\n        <th>Plise Tipi</th>\n        <th>Boya Tipi</th>\n    </tr>\n"@
        + rows + "\n<tr>\n<td style=\"border-bottom: none;\" colspan=\"3\"></td>\n<td>Toplam Fiyat: "@
        + spec_money(price)
        + " TL</td>\n</tr>\n<tr>\n<td style=\"border-bottom: none; border-top: none;\" colspan=\"3\"></td>\n<td>KDV (%) "@
        + spec_dec(kdv)
        + "</td>\n</tr>\n<tr>\n<td style=\"border-top: none;\" colspan=\"3\"></td>\n<td>Kdv Dahil Fiyat: "@
        + spec_money(rnd(price * (100 + kdv), 100)) + "</td>\n</tr>\n</table>\n"@
}

/// Report generation.
pub struct Html {}

impl Html {
    /// Wrap a document body in the fixed page frame.
    pub fn wrap_with_skeleton(s: &str) -> (r: String)
        ensures
            r@ == spec_skeleton(s@),
    {
        let mut out: String =
            "<!DOCTYPE html>\n<html lang=\"en\">\n<head>\n    <meta charset=\"UTF-8\">\n    <title>Plise Measurements</title>\n    <style>\n        table {\n            width: 100%;\n            border-collapse: collapse;\n        }\n        th, td {\n            border: 1px solid black;\n            padding: 8px;\n            text-align: left;\n        }\n        th {\n            background-color: #f2f2f2;\n        }\n    </style>\n</head>\n<body>\n".to_owned();
        out.append(s);
        out.append("\n</body>\n</html>");
        out
    }

    /// The full material document: the rows, the total cost in cents, the
    /// customer, and the date, framed as a page.
    pub fn create_consumables_html(s: &str, maliyet: i64, client: &str, date: &str) -> (r: String)
        requires
            maliyet > i64::MIN,
        ensures
            r@ == spec_skeleton(spec_consumables_table(s@, maliyet as int, client@, date@)),
    {
        let mut table: String =
            "\n<table>\n    <tr>\n        <th colspan=\"12\", style=\"text-align: center;\">DOĞUŞ SİNEKLİK SARF MALZEME TABLOSU</th>\n    </tr>\n    <tr>\n        <th style=\"border-right: none;\">Müşteri Adı:</th>\n        <th style=\"border-left: none;\">".to_owned();
        table.append(client);
        table.append(
            "</th>\n        <th colspan=\"8\"></th>\n        <th style=\"border-right: none;\">Tarih:</th>\n        <th style=\"border-left: none;\">",
        );
        table.append(date);
        table.append(
            "</th>\n    </tr>\n    <tr>\n        <th>Sıra</th>\n        <th>Plise Tipi</th>\n        <th>Renk Tipi</th>\n        <th>Kasa (cm)</th>\n        <th>Kanat (cm)</th>\n        <th>Tül (cm^2)</th>\n        <th>Şerit (cm)</th>\n        <th>Köşe Adet</th>\n        <th>Teker Adet</th>\n        <th>Klips Adet</th>\n        <th>Stop Adet</th>\n        <th>Dönüş Adet</th>\n    </tr>\n",
        );
        table.append(s);
        table.append(
            "\n<tr>\n<td colspan=\"10\"></td>\n<td style=\"border-right: none;\">Toplam Maliyet Fiyatı:</td>\n<td style=\"border-left: none;\">",
        );
        push_money(&mut table, maliyet);
        table.append(" TL</td>\n</tr>\n</table>\n");
        Html::wrap_with_skeleton(table.as_str())
    }

    /// The full price document: the rows, the order price in cents, the
    /// tax percentage, the customer, and the date, framed as a page.  The
    /// tax-inclusive figure is computed here, by the engine's rounding
    /// policy.
    pub fn create_price_html(s: &str, price: i64, kdv: u64, client: &str, date: &str) -> (r:
        String)
        requires
            -800_000_000_000_000_000 <= price <= 800_000_000_000_000_000,
            kdv <= MAX_PERCENT,
        ensures
            r@ == spec_skeleton(spec_price_table(s@, price as int, kdv as int, client@, date@)),
    {
        let mut table: String =
            "\n<h2>Plise Fiyat Tablosu</h2>\n<table>\n    <tr>\n        <th colspan=\"7\", style=\"text-align: center;\">DOĞUŞ SİNEKLİK ÜCRET TABLOSU</th>\n    </tr>\n    <tr>\n        <th>Müşteri Adı: ".to_owned();
        table.append(client);
        table.append(
            "</th>\n        <th colspan=\"2\"></th>\n        <th style=\"text-align: right;\">Tarih: ",
        );
        table.append(date);
        table.append(
            "</th>\n    </tr>\n    <tr>\n        <th>Sıra</th>\n        <th>Plise Ölçüsü</th>\n        <th>Plise Tipi</th>\n        <th>Boya Tipi</th>\n    </tr>\n",
        );
        table.append(s);
        table.append(
            "\n<tr>\n<td style=\"border-bottom: none;\" colspan=\"3\"></td>\n<td>Toplam Fiyat: ",
        );
        push_money(&mut table, price);
        table.append(
            " TL</td>\n</tr>\n<tr>\n<td style=\"border-bottom: none; border-top: none;\" colspan=\"3\"></td>\n<td>KDV (%) ",
        );
        push_dec(&mut table, kdv);
        table.append(
            "</td>\n</tr>\n<tr>\n<td style=\"border-top: none;\" colspan=\"3\"></td>\n<td>Kdv Dahil Fiyat: ",
        );
        proof {
            lemma_mul_bounds_signed(
                price as int,
                -800_000_000_000_000_000,
                800_000_000_000_000_000,
                100 + kdv as int,
                400,
            );
        }
        let scaled: i128 = (price as i128) * (100 + kdv as i128);
        let with_kdv: i128 = round_div_wide(scaled, 100);
        proof {
            lemma_rnd_monotone(-320_000_000_000_000_000_000, scaled as int, 100);
            lemma_rnd_monotone(scaled as int, 320_000_000_000_000_000_000, 100);
            lemma_rnd_unfold(-320_000_000_000_000_000_000, 100);
            lemma_rnd_unfold(320_000_000_000_000_000_000, 100);
        }
        push_money(&mut table, with_kdv as i64);
        table.append("</td>\n</tr>\n</table>\n");
        Html::wrap_with_skeleton(table.as_str())
    }
}

} // verus!
