//! Laws of what is shown of a record, line by line.

use vstd::prelude::*;

use crate::api::{AdvisoryView, ProductRefView, VulnerabilityView};
use crate::lines::{
    advisory_score_part, headed, kv_part, lines_of_advisory, lines_of_vuln, list_part, or_empty,
    product_line, products_part, prose_part, reference_line, references_part, score_line,
    score_style_of, source_part, text_line, vendor_names, LineView,
};
use crate::number::{decimal, pad_left};
use crate::pieces::{join, lines, nonblank_lines};
use crate::score::{figures_from_zero_to_ten, severity_steps_up_at_its_marks};
use crate::style::{Color, SpanView, Style};
use crate::text_laws::{all_white, blank_texts_are_white};

verus! {

// --- what rows look like -----------------------------------------------------------------

/// The style that the terminal has by itself.
pub open spec fn as_it_is() -> Style {
    Style { fg: None, bg: None, bold: false, dim: false, underlined: false, reversed: false }
}

/// A value behind its key, which is dim.
pub open spec fn shows_pair(row: LineView, key: Seq<char>, value: Seq<char>) -> bool {
    row == seq![
        SpanView { text: key, style: Style { dim: true, ..as_it_is() } },
        SpanView { text: value, style: as_it_is() },
    ]
}

/// A text, of which the line ends are left out.
pub open spec fn shows_text(row: LineView, text: Seq<char>) -> bool {
    &&& row.len() == lines(text).len()
    &&& forall|i: int|
        0 <= i < row.len() ==> #[trigger] row[i] == (SpanView {
            text: lines(text)[i],
            style: as_it_is(),
        })
}

/// An empty row and below it the name of a section, bold and in cyan, in the rows from
/// `at` on.
pub open spec fn shows_heading(rows: Seq<LineView>, at: int, name: Seq<char>) -> bool {
    &&& 0 <= at && at + 2 <= rows.len()
    &&& rows[at].len() == 0
    &&& rows[at + 1] == seq![
        SpanView { text: name, style: Style { bold: true, fg: Some(Color::Cyan), ..as_it_is() } },
    ]
}

/// A heading and directly below it the lines of the text, one by one.
pub open spec fn shows_prose(
    rows: Seq<LineView>,
    at: int,
    name: Seq<char>,
    text: Seq<char>,
) -> bool {
    &&& shows_heading(rows, at, name)
    &&& at + 2 + lines(text).len() <= rows.len()
    &&& forall|i: int|
        0 <= i < lines(text).len() ==> shows_text(rows[at + 2 + i], #[trigger] lines(text)[i])
}

/// What is said of a product: its vendor, if that is to be shown, its name and its version.
pub open spec fn said_of_product(p: ProductRefView, with_vendor: bool) -> Seq<char> {
    let named = "  • "@ + (if with_vendor && p.product.vendor is Some {
        p.product.vendor->0.name + " — "@
    } else {
        Seq::<char>::empty()
    }) + p.product.name;
    if p.product_version is Some && p.product_version->0.len() > 0 {
        named + ("  ("@ + p.product_version->0 + ")"@)
    } else {
        named
    }
}

/// A heading and directly below it a row for each product.
pub open spec fn shows_products(
    rows: Seq<LineView>,
    at: int,
    products: Seq<ProductRefView>,
    with_vendor: bool,
) -> bool {
    &&& shows_heading(rows, at, "Affected products"@)
    &&& at + 2 + products.len() <= rows.len()
    &&& forall|i: int|
        0 <= i < products.len() ==> shows_text(
            rows[at + 2 + i],
            said_of_product(#[trigger] products[i], with_vendor),
        )
}

/// A heading and directly below it the references, with their numbers from 1 on.
pub open spec fn shows_references(rows: Seq<LineView>, at: int, refs: Seq<Seq<char>>) -> bool {
    &&& shows_heading(rows, at, "References (press 1-9 to open)"@)
    &&& at + 2 + refs.len() <= rows.len()
    &&& forall|i: int|
        0 <= i < refs.len() ==> rows[at + 2 + i] == seq![
            SpanView {
                text: "  "@ + pad_left(decimal((i + 1) as nat), 2) + ". "@,
                style: Style { dim: true, ..as_it_is() },
            },
            SpanView {
                text: #[trigger] refs[i],
                style: Style { fg: Some(Color::Blue), underlined: true, ..as_it_is() },
            },
        ]
}

/// 1 where it is so, else 0.
pub open spec fn one_if(b: bool) -> int {
    if b {
        1
    } else {
        0
    }
}

/// The rows that a section with so many entries takes: none without entries, else two more.
pub open spec fn rows_of_section(entries: nat) -> int {
    if entries == 0 {
        0
    } else {
        entries as int + 2
    }
}

/// The rows that a text takes below its heading: none where it is blank.
pub open spec fn rows_of_prose(text: Seq<char>) -> int {
    if all_white(text) {
        0
    } else {
        lines(text).len() as int + 2
    }
}

// --- parts -------------------------------------------------------------------------------

/// The part stands in the rows from `at` on.
#[verifier::opaque]
spec fn stands_at(rows: Seq<LineView>, at: int, part: Seq<LineView>) -> bool {
    &&& 0 <= at
    &&& at + part.len() <= rows.len()
    &&& forall|i: int| 0 <= i < part.len() ==> rows[at + i] == #[trigger] part[i]
}

/// What is put behind rows stands behind them, and what stands in them stays there.
proof fn lemma_put_behind(rows: Seq<LineView>, more: Seq<LineView>)
    ensures
        stands_at(rows + more, rows.len() as int, more),
        forall|at: int, part: Seq<LineView>| #[trigger]
            stands_at(rows, at, part) ==> stands_at(rows + more, at, part),
{
    reveal(stands_at);
    assert forall|at: int, part: Seq<LineView>| #[trigger]
        stands_at(rows, at, part) implies stands_at(rows + more, at, part) by {
        assert forall|i: int| 0 <= i < part.len() implies (rows + more)[at + i]
            == #[trigger] part[i] by {
            assert(rows[at + i] == part[i]);
        }
    }
    assert forall|i: int| 0 <= i < more.len() implies (rows + more)[rows.len() + i]
        == #[trigger] more[i] by {}
}

proof fn lemma_at_top(part: Seq<LineView>)
    ensures
        stands_at(part, 0, part),
{
    reveal(stands_at);
}

proof fn lemma_first_row(rows: Seq<LineView>, at: int, part: Seq<LineView>)
    requires
        stands_at(rows, at, part),
    ensures
        part.len() > 0 ==> 0 <= at < rows.len() && rows[at] == part[0],
{
    reveal(stands_at);
    if part.len() > 0 {
        assert(rows[at + 0] == part[0]);
    }
}

proof fn lemma_heading(rows: Seq<LineView>, at: int, name: Seq<char>, body: Seq<LineView>)
    requires
        stands_at(rows, at, headed(name, body)),
    ensures
        shows_heading(rows, at, name),
        at + 2 + body.len() <= rows.len(),
        forall|i: int| 0 <= i < body.len() ==> rows[at + 2 + i] == #[trigger] body[i],
{
    reveal(stands_at);
    let part = headed(name, body);
    assert(rows[at + 0] == part[0]);
    assert(rows[at + 1] == part[1]);
    assert forall|i: int| 0 <= i < body.len() implies rows[at + 2 + i] == #[trigger] body[i] by {
        assert(rows[at + (2 + i)] == part[2 + i]);
    }
}

proof fn lemma_shows_text(text: Seq<char>)
    ensures
        shows_text(text_line(text), text),
{
}

proof fn lemma_prose(rows: Seq<LineView>, at: int, name: Seq<char>, text: Seq<char>)
    requires
        stands_at(rows, at, prose_part(name, text)),
    ensures
        !all_white(text) ==> shows_prose(rows, at, name, text),
        prose_part(name, text).len() == rows_of_prose(text),
{
    blank_texts_are_white(text);
    if !all_white(text) {
        let body = lines(text).map_values(|l: Seq<char>| text_line(l));
        lemma_heading(rows, at, name, body);
        assert forall|i: int| 0 <= i < lines(text).len() implies shows_text(
            rows[at + 2 + i],
            #[trigger] lines(text)[i],
        ) by {
            assert(rows[at + 2 + i] == body[i]);
            lemma_shows_text(lines(text)[i]);
        }
    }
}

proof fn lemma_products(
    rows: Seq<LineView>,
    at: int,
    products: Seq<ProductRefView>,
    with_vendor: bool,
)
    requires
        stands_at(rows, at, products_part(products, with_vendor)),
    ensures
        products.len() > 0 ==> shows_products(rows, at, products, with_vendor),
        products_part(products, with_vendor).len() == rows_of_section(products.len()),
{
    if products.len() > 0 {
        let body = products.map_values(|p: ProductRefView| product_line(p, with_vendor));
        lemma_heading(rows, at, "Affected products"@, body);
        assert forall|i: int| 0 <= i < products.len() implies shows_text(
            rows[at + 2 + i],
            said_of_product(#[trigger] products[i], with_vendor),
        ) by {
            assert(rows[at + 2 + i] == body[i]);
            let p = products[i];
            let front = "  • "@ + (if with_vendor {
                crate::lines::vendor_prefix(p)
            } else {
                seq![]
            }) + p.product.name;
            assert(front + crate::lines::version_suffix(p) =~= said_of_product(p, with_vendor));
            lemma_shows_text(said_of_product(p, with_vendor));
        }
    }
}

proof fn lemma_references(rows: Seq<LineView>, at: int, refs: Seq<Seq<char>>)
    requires
        stands_at(rows, at, references_part(refs)),
    ensures
        refs.len() > 0 ==> shows_references(rows, at, refs),
        references_part(refs).len() == rows_of_section(refs.len()),
{
    if refs.len() > 0 {
        let body = refs.map(|i: int, r: Seq<char>| reference_line((i + 1) as nat, r));
        lemma_heading(rows, at, "References (press 1-9 to open)"@, body);
        assert forall|i: int| 0 <= i < refs.len() implies rows[at + 2 + i] == seq![
            SpanView {
                text: "  "@ + pad_left(decimal((i + 1) as nat), 2) + ". "@,
                style: Style { dim: true, ..as_it_is() },
            },
            SpanView {
                text: #[trigger] refs[i],
                style: Style { fg: Some(Color::Blue), underlined: true, ..as_it_is() },
            },
        ] by {
            assert(rows[at + 2 + i] == body[i]);
        }
    }
}

/// The keys end at the same column.
proof fn lemma_keys()
    ensures
        pad_left("CVSS"@, 10) + ": "@ == "      CVSS: "@,
        pad_left("Vector"@, 10) + ": "@ == "    Vector: "@,
        pad_left("Aliases"@, 10) + ": "@ == "   Aliases: "@,
        pad_left("Assigner"@, 10) + ": "@ == "  Assigner: "@,
        pad_left("Published"@, 10) + ": "@ == " Published: "@,
        pad_left("Updated"@, 10) + ": "@ == "   Updated: "@,
        pad_left("Vendors"@, 10) + ": "@ == "   Vendors: "@,
        pad_left("Source"@, 10) + ": "@ == "    Source: "@,
{
    reveal_strlit(": ");
    reveal_strlit("CVSS");
    reveal_strlit("      CVSS: ");
    reveal_strlit("Vector");
    reveal_strlit("    Vector: ");
    reveal_strlit("Aliases");
    reveal_strlit("   Aliases: ");
    reveal_strlit("Assigner");
    reveal_strlit("  Assigner: ");
    reveal_strlit("Published");
    reveal_strlit(" Published: ");
    reveal_strlit("Updated");
    reveal_strlit("   Updated: ");
    reveal_strlit("Vendors");
    reveal_strlit("   Vendors: ");
    reveal_strlit("Source");
    reveal_strlit("    Source: ");
    assert(pad_left("CVSS"@, 10) + ": "@ =~= "      CVSS: "@);
    assert(pad_left("Vector"@, 10) + ": "@ =~= "    Vector: "@);
    assert(pad_left("Aliases"@, 10) + ": "@ =~= "   Aliases: "@);
    assert(pad_left("Assigner"@, 10) + ": "@ =~= "  Assigner: "@);
    assert(pad_left("Published"@, 10) + ": "@ =~= " Published: "@);
    assert(pad_left("Updated"@, 10) + ": "@ =~= "   Updated: "@);
    assert(pad_left("Vendors"@, 10) + ": "@ =~= "   Vendors: "@);
    assert(pad_left("Source"@, 10) + ": "@ =~= "    Source: "@);
}

proof fn lemma_pair(rows: Seq<LineView>, at: int, key: Seq<char>, value: Seq<char>)
    requires
        stands_at(rows, at, kv_part(key, value)),
    ensures
        value.len() > 0 ==> 0 <= at < rows.len() && shows_pair(
            rows[at],
            pad_left(key, 10) + ": "@,
            value,
        ),
        kv_part(key, value).len() == one_if(value.len() > 0),
{
    lemma_first_row(rows, at, kv_part(key, value));
    if value.len() > 0 {
        assert(rows[at] =~= seq![
            SpanView { text: pad_left(key, 10) + ": "@, style: Style { dim: true, ..as_it_is() } },
            SpanView { text: value, style: as_it_is() },
        ]);
    }
}

proof fn lemma_list(rows: Seq<LineView>, at: int, key: Seq<char>, entries: Seq<Seq<char>>)
    requires
        stands_at(rows, at, list_part(key, entries)),
    ensures
        entries.len() > 0 ==> 0 <= at < rows.len() && shows_pair(
            rows[at],
            pad_left(key, 10) + ": "@,
            join(entries, " · "@),
        ),
        list_part(key, entries).len() == one_if(entries.len() > 0),
{
    lemma_first_row(rows, at, list_part(key, entries));
    if entries.len() > 0 {
        assert(rows[at] =~= seq![
            SpanView { text: pad_left(key, 10) + ": "@, style: Style { dim: true, ..as_it_is() } },
            SpanView { text: join(entries, " · "@), style: as_it_is() },
        ]);
    }
}

// --- vulnerabilities ---------------------------------------------------------------------

/// The row of the scores begins with the CVSS score, in the colour of its severity and
/// with the version of CVSS behind it, if there is one, or with a dash. The EPSS score
/// follows, if there is one, and nothing else.
pub open spec fn shows_scores(row: LineView, v: VulnerabilityView) -> bool {
    let with_version = v.base_score is Some && v.base_score_version is Some;
    let n = 2 + one_if(with_version);
    &&& row.len() == n + one_if(v.epss is Some)
    &&& row[0] == (SpanView {
        text: "      CVSS: "@,
        style: Style { dim: true, ..as_it_is() },
    })
    &&& v.base_score is Some ==> row[1] == (SpanView {
        text: v.base_score->0.tenths,
        style: score_style_of(v.base_score->0.bits),
    })
    &&& v.base_score is None ==> row[1] == (SpanView { text: "—"@, style: as_it_is() })
    &&& with_version ==> row[2] == (SpanView {
        text: " (v"@ + v.base_score_version->0 + ")"@,
        style: as_it_is(),
    })
    &&& v.epss is Some ==> row[n] == (SpanView {
        text: "   EPSS: "@ + v.epss->0.hundredths + "%"@,
        style: as_it_is(),
    })
}

proof fn lemma_scores(v: VulnerabilityView)
    ensures
        shows_scores(score_line(v), v),
{
    lemma_keys();
}

/// Everything that is known of a vulnerability is shown, in this order and nothing else:
/// its scores, the vector, the aliases, the assigner, the two dates, the vendors, the
/// products, the description and the references. What is empty takes no row; the
/// description is shown line by line, directly below its heading.
pub proof fn all_of_a_vulnerability_is_shown(v: VulnerabilityView)
    ensures
        ({
            let rows = lines_of_vuln(v);
            let aliases = nonblank_lines(v.aliases);
            let refs = nonblank_lines(v.references);
            let vector = 1int;
            let alias = vector + one_if(
                v.base_score_vector is Some && v.base_score_vector->0.len() > 0,
            );
            let assigner = alias + one_if(aliases.len() > 0);
            let published = assigner + one_if(v.assigner.len() > 0);
            let updated = published + one_if(v.date_published.len() > 0);
            let vendors = updated + one_if(v.date_updated.len() > 0);
            let products = vendors + one_if(v.vendors.len() > 0);
            let description = products + rows_of_section(v.products.len());
            let references = description + rows_of_prose(v.description);
            &&& rows.len() == references + rows_of_section(refs.len())
            &&& shows_scores(rows[0], v)
            &&& v.base_score_vector is Some && v.base_score_vector->0.len() > 0 ==> shows_pair(
                rows[vector],
                "    Vector: "@,
                v.base_score_vector->0,
            )
            &&& aliases.len() > 0 ==> shows_pair(
                rows[alias],
                "   Aliases: "@,
                join(aliases, " · "@),
            )
            &&& v.assigner.len() > 0 ==> shows_pair(rows[assigner], "  Assigner: "@, v.assigner)
            &&& v.date_published.len() > 0 ==> shows_pair(
                rows[published],
                " Published: "@,
                v.date_published,
            )
            &&& v.date_updated.len() > 0 ==> shows_pair(
                rows[updated],
                "   Updated: "@,
                v.date_updated,
            )
            &&& v.vendors.len() > 0 ==> shows_pair(
                rows[vendors],
                "   Vendors: "@,
                join(Seq::new(v.vendors.len(), |i: int| v.vendors[i].vendor.name), " · "@),
            )
            &&& v.products.len() > 0 ==> shows_products(rows, products, v.products, true)
            &&& !all_white(v.description) ==> shows_prose(
                rows,
                description,
                "Description"@,
                v.description,
            )
            &&& refs.len() > 0 ==> shows_references(rows, references, refs)
        }),
{
    lemma_keys();
    let rows = lines_of_vuln(v);
    let aliases = nonblank_lines(v.aliases);
    let refs = nonblank_lines(v.references);
    let p0 = seq![score_line(v)];
    let p1 = kv_part("Vector"@, or_empty(v.base_score_vector));
    let p2 = list_part("Aliases"@, aliases);
    let p3 = kv_part("Assigner"@, v.assigner);
    let p4 = kv_part("Published"@, v.date_published);
    let p5 = kv_part("Updated"@, v.date_updated);
    let p6 = list_part("Vendors"@, vendor_names(v.vendors));
    let p7 = products_part(v.products, true);
    let p8 = prose_part("Description"@, v.description);
    let p9 = references_part(refs);
    let a2 = p0 + p1;
    let a3 = a2 + p2;
    let a4 = a3 + p3;
    let a5 = a4 + p4;
    let a6 = a5 + p5;
    let a7 = a6 + p6;
    let a8 = a7 + p7;
    let a9 = a8 + p8;
    lemma_at_top(p0);
    lemma_put_behind(p0, p1);
    lemma_put_behind(a2, p2);
    lemma_put_behind(a3, p3);
    lemma_put_behind(a4, p4);
    lemma_put_behind(a5, p5);
    lemma_put_behind(a6, p6);
    lemma_put_behind(a7, p7);
    lemma_put_behind(a8, p8);
    lemma_put_behind(a9, p9);
    assert(rows == a9 + p9);
    lemma_first_row(rows, 0, p0);
    lemma_scores(v);
    lemma_pair(rows, p0.len() as int, "Vector"@, or_empty(v.base_score_vector));
    lemma_list(rows, a2.len() as int, "Aliases"@, aliases);
    lemma_pair(rows, a3.len() as int, "Assigner"@, v.assigner);
    lemma_pair(rows, a4.len() as int, "Published"@, v.date_published);
    lemma_pair(rows, a5.len() as int, "Updated"@, v.date_updated);
    lemma_list(rows, a6.len() as int, "Vendors"@, vendor_names(v.vendors));
    assert(vendor_names(v.vendors) =~= Seq::new(
        v.vendors.len(),
        |i: int| v.vendors[i].vendor.name,
    ));
    lemma_products(rows, a7.len() as int, v.products, true);
    lemma_prose(rows, a8.len() as int, "Description"@, v.description);
    lemma_references(rows, a9.len() as int, refs);
}

// --- advisories --------------------------------------------------------------------------

/// Everything that is known of an advisory is shown, in this order and nothing else: its
/// source, its score if that is above zero, the two dates, the aliases, the products, the
/// summary, the description and the references. What is empty takes no row; the summary
/// and the description are shown line by line, directly below their headings.
pub proof fn all_of_an_advisory_is_shown(a: AdvisoryView)
    ensures
        ({
            let rows = lines_of_advisory(a);
            let aliases = nonblank_lines(a.aliases);
            let refs = nonblank_lines(a.references);
            let scored = a.base_score is Some && 0 < a.base_score->0.bits
                <= 0x7ff0_0000_0000_0000;
            let score = one_if(a.source is Some);
            let published = score + one_if(scored);
            let updated = published + one_if(a.date_published.len() > 0);
            let alias = updated + one_if(a.date_updated.len() > 0);
            let products = alias + one_if(aliases.len() > 0);
            let summary = products + rows_of_section(a.products.len());
            let description = summary + rows_of_prose(a.summary);
            let references = description + rows_of_prose(a.description);
            &&& rows.len() == references + rows_of_section(refs.len())
            &&& a.source is Some ==> shows_pair(rows[0], "    Source: "@, a.source->0.name)
            &&& scored ==> rows[score] == seq![
                SpanView { text: "      CVSS: "@, style: Style { dim: true, ..as_it_is() } },
                SpanView {
                    text: a.base_score->0.tenths,
                    style: score_style_of(a.base_score->0.bits),
                },
            ]
            &&& a.date_published.len() > 0 ==> shows_pair(
                rows[published],
                " Published: "@,
                a.date_published,
            )
            &&& a.date_updated.len() > 0 ==> shows_pair(
                rows[updated],
                "   Updated: "@,
                a.date_updated,
            )
            &&& aliases.len() > 0 ==> shows_pair(
                rows[alias],
                "   Aliases: "@,
                join(aliases, " · "@),
            )
            &&& a.products.len() > 0 ==> shows_products(rows, products, a.products, false)
            &&& !all_white(a.summary) ==> shows_prose(rows, summary, "Summary"@, a.summary)
            &&& !all_white(a.description) ==> shows_prose(
                rows,
                description,
                "Description"@,
                a.description,
            )
            &&& refs.len() > 0 ==> shows_references(rows, references, refs)
        }),
{
    lemma_keys();
    let rows = lines_of_advisory(a);
    let aliases = nonblank_lines(a.aliases);
    let refs = nonblank_lines(a.references);
    let p0 = source_part(a);
    let p1 = advisory_score_part(a.base_score);
    let p2 = kv_part("Published"@, a.date_published);
    let p3 = kv_part("Updated"@, a.date_updated);
    let p4 = list_part("Aliases"@, aliases);
    let p5 = products_part(a.products, false);
    let p6 = prose_part("Summary"@, a.summary);
    let p7 = prose_part("Description"@, a.description);
    let p8 = references_part(refs);
    let a2 = p0 + p1;
    let a3 = a2 + p2;
    let a4 = a3 + p3;
    let a5 = a4 + p4;
    let a6 = a5 + p5;
    let a7 = a6 + p6;
    let a8 = a7 + p7;
    lemma_at_top(p0);
    lemma_put_behind(p0, p1);
    lemma_put_behind(a2, p2);
    lemma_put_behind(a3, p3);
    lemma_put_behind(a4, p4);
    lemma_put_behind(a5, p5);
    lemma_put_behind(a6, p6);
    lemma_put_behind(a7, p7);
    lemma_put_behind(a8, p8);
    assert(rows == a8 + p8);
    lemma_first_row(rows, 0, p0);
    lemma_first_row(rows, p0.len() as int, p1);
    if let Some(src) = a.source {
        assert(rows[0] =~= seq![
            SpanView { text: "    Source: "@, style: Style { dim: true, ..as_it_is() } },
            SpanView { text: src.name, style: as_it_is() },
        ]);
    }
    if let Some(s) = a.base_score {
        figures_from_zero_to_ten(s.bits);
    }
    lemma_pair(rows, a2.len() as int, "Published"@, a.date_published);
    lemma_pair(rows, a3.len() as int, "Updated"@, a.date_updated);
    lemma_list(rows, a4.len() as int, "Aliases"@, aliases);
    lemma_products(rows, a5.len() as int, a.products, false);
    lemma_prose(rows, a6.len() as int, "Summary"@, a.summary);
    lemma_prose(rows, a7.len() as int, "Description"@, a.description);
    lemma_references(rows, a8.len() as int, refs);
}

/// The description of an advisory is shown: somewhere in the rows stands its heading, and
/// directly below it stand the lines of the description, in their order.
pub proof fn descriptions_are_shown(a: AdvisoryView, v: VulnerabilityView)
    ensures
        !all_white(a.description) ==> exists|at: int|
            #[trigger] shows_prose(lines_of_advisory(a), at, "Description"@, a.description),
        !all_white(v.description) ==> exists|at: int|
            #[trigger] shows_prose(lines_of_vuln(v), at, "Description"@, v.description),
{
    all_of_an_advisory_is_shown(a);
    all_of_a_vulnerability_is_shown(v);
}

/// The colour of a score tells its severity: bold red from 9 on, light red from 7 on,
/// yellow from 4 on, and green below.
pub proof fn scores_are_coloured_by_severity(bits: u64)
    ensures
        score_style_of(bits) == (if bits > 0x7ff0_0000_0000_0000 || bits < 0x4010_0000_0000_0000 {
            Style { fg: Some(Color::Green), ..as_it_is() }
        } else if bits < 0x401c_0000_0000_0000 {
            Style { fg: Some(Color::Yellow), ..as_it_is() }
        } else if bits < 0x4022_0000_0000_0000 {
            Style { fg: Some(Color::LightRed), ..as_it_is() }
        } else {
            Style { fg: Some(Color::Red), bold: true, ..as_it_is() }
        }),
{
    severity_steps_up_at_its_marks(bits);
}

} // verus!
