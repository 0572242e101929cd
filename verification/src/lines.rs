//! The lines of the detail view and of the help.

use vstd::prelude::*;
use vstd::string::*;

use crate::api::{
    product_views, vendor_views, Advisory, AdvisoryView, ProductRef, ProductRefView, VendorRef,
    VendorRefView, Vulnerability, VulnerabilityView,
};
use crate::number::{decimal, decimal_text, pad_left, pad_right, padded_left, padded_right};
use crate::pieces::{join, join_slices, lines, nonblank_lines, split_lines, trimmed_lines};
use crate::score::{positive, severity_of, Score, ScoreView, Severity};
use crate::style::{
    accented, colored, dimmed, line_views, push_line, raw, styled, Color, Line, Span, SpanView,
    Style, ACCENT,
};
use crate::text::{blank, is_blank, slice_views};

verus! {

/// The model of a [`Line`].
pub type LineView = Seq<SpanView>;

// --- single lines ----------------------------------------------------------------------

/// A text without styles. Line ends in it are left out.
pub open spec fn text_line(text: Seq<char>) -> LineView {
    lines(text).map_values(|l: Seq<char>| raw(l))
}

/// A value behind its key, which ends at the same column in all lines.
pub open spec fn kv_line(key: Seq<char>, value: Seq<char>) -> LineView {
    seq![styled(pad_left(key, 10) + ": "@, dimmed()), raw(value)]
}

/// The name of a section.
pub open spec fn section_line(name: Seq<char>) -> LineView {
    seq![styled(name, accented())]
}

/// The style of a CVSS score, by its severity.
pub open spec fn score_style_of(bits: u64) -> Style {
    match severity_of(bits) {
        Severity::Critical => Style { bold: true, ..colored(Color::Red) },
        Severity::High => colored(Color::LightRed),
        Severity::Medium => colored(Color::Yellow),
        Severity::Low => colored(Color::Green),
    }
}

pub(crate) fn text_row(text: &str) -> (r: Line)
    ensures
        r@ == text_line(text@),
{
    let pieces = split_lines(text);
    let mut r = Line::empty();
    let mut i: usize = 0;
    while i < pieces.len()
        invariant
            i <= pieces@.len(),
            slice_views(pieces@) == lines(text@),
            r@ == text_line(text@).take(i as int),
        decreases pieces@.len() - i,
    {
        assert(lines(text@)[i as int] == pieces@[i as int]@);
        assert(text_line(text@).take(i + 1) =~= text_line(text@).take(i as int).push(
            raw(pieces@[i as int]@),
        ));
        r.push(Span::raw(pieces[i].to_owned()));
        i = i + 1;
    }
    assert(text_line(text@).take(pieces@.len() as int) =~= text_line(text@));
    r
}

/// A value behind its key, which ends at the same column in all lines.
pub fn kv(key: &str, value: String) -> (r: Line)
    ensures
        r@ == kv_line(key@, value@),
{
    let mut r = Line::of(key_span(key));
    r.push(Span::raw(value));
    r
}

fn key_span(key: &str) -> (r: Span)
    ensures
        r@ == styled(pad_left(key@, 10) + ": "@, dimmed()),
{
    let mut text = padded_left(key, 10);
    text.append(": ");
    Span::styled(text, Style::faint())
}

/// The name of a section.
pub fn section(name: &str) -> (r: Line)
    ensures
        r@ == section_line(name@),
{
    Line::of(Span::styled(name.to_owned(), Style::accent()))
}

/// The style of a CVSS score, by its severity.
pub fn score_style(score: &Score) -> (r: Style)
    ensures
        r == score_style_of(score.bits),
{
    match score.severity() {
        Severity::Critical => Style { bold: true, ..Style::color(Color::Red) },
        Severity::High => Style::color(Color::LightRed),
        Severity::Medium => Style::color(Color::Yellow),
        Severity::Low => Style::color(Color::Green),
    }
}

// --- parts that records share ------------------------------------------------------------

/// The lines of a section that is set off from what stands above it.
pub open spec fn headed(name: Seq<char>, body: Seq<LineView>) -> Seq<LineView> {
    seq![Seq::<SpanView>::empty(), section_line(name)] + body
}

/// A line for a value, unless the value is empty.
pub open spec fn kv_part(key: Seq<char>, value: Seq<char>) -> Seq<LineView> {
    if value.len() > 0 {
        seq![kv_line(key, value)]
    } else {
        seq![]
    }
}

/// A line for the entries of a list, unless there are none.
pub open spec fn list_part(key: Seq<char>, entries: Seq<Seq<char>>) -> Seq<LineView> {
    if entries.len() > 0 {
        seq![kv_line(key, join(entries, " · "@))]
    } else {
        seq![]
    }
}

/// The lines of a text, below its name, unless it is blank.
pub open spec fn prose_part(name: Seq<char>, text: Seq<char>) -> Seq<LineView> {
    if is_blank(text) {
        seq![]
    } else {
        headed(name, lines(text).map_values(|l: Seq<char>| text_line(l)))
    }
}

/// The line of the reference with the number `n`.
pub open spec fn reference_line(n: nat, url: Seq<char>) -> LineView {
    seq![
        styled("  "@ + pad_left(decimal(n), 2) + ". "@, dimmed()),
        styled(url, Style { underlined: true, ..colored(Color::Blue) }),
    ]
}

/// The references, numbered from 1 on, unless there are none.
pub open spec fn references_part(refs: Seq<Seq<char>>) -> Seq<LineView> {
    if refs.len() > 0 {
        headed(
            "References (press 1-9 to open)"@,
            refs.map(|i: int, r: Seq<char>| reference_line((i + 1) as nat, r)),
        )
    } else {
        seq![]
    }
}

/// The vendor of a product with a dash behind it, if the product has one.
pub open spec fn vendor_prefix(p: ProductRefView) -> Seq<char> {
    match p.product.vendor {
        Some(v) => v.name + " — "@,
        None => seq![],
    }
}

/// The version of a product in brackets, if it has one that is not empty.
pub open spec fn version_suffix(p: ProductRefView) -> Seq<char> {
    match p.product_version {
        Some(v) => if v.len() > 0 {
            "  ("@ + v + ")"@
        } else {
            seq![]
        },
        None => seq![],
    }
}

/// The line of a product, with its vendor or without.
pub open spec fn product_line(p: ProductRefView, with_vendor: bool) -> LineView {
    text_line(
        "  • "@ + (if with_vendor {
            vendor_prefix(p)
        } else {
            seq![]
        }) + p.product.name + version_suffix(p),
    )
}

/// The products, unless there are none.
pub open spec fn products_part(products: Seq<ProductRefView>, with_vendor: bool) -> Seq<LineView> {
    if products.len() > 0 {
        headed(
            "Affected products"@,
            products.map_values(|p: ProductRefView| product_line(p, with_vendor)),
        )
    } else {
        seq![]
    }
}

fn push_heading(rows: &mut Vec<Line>, name: &str)
    ensures
        line_views(final(rows)@) == line_views(old(rows)@) + headed(name@, seq![]),
{
    push_line(rows, Line::empty());
    push_line(rows, section(name));
    assert(line_views(rows@) =~= line_views(old(rows)@) + headed(name@, seq![]));
}

fn push_kv(rows: &mut Vec<Line>, key: &str, value: &str)
    ensures
        line_views(final(rows)@) == line_views(old(rows)@) + kv_part(key@, value@),
{
    if !value.is_empty() {
        push_line(rows, kv(key, value.to_owned()));
    }
    assert(line_views(rows@) =~= line_views(old(rows)@) + kv_part(key@, value@));
}

fn push_list(rows: &mut Vec<Line>, key: &str, entries: &Vec<&str>)
    ensures
        line_views(final(rows)@) == line_views(old(rows)@) + list_part(key@, slice_views(entries@)),
{
    if entries.len() > 0 {
        push_line(rows, kv(key, join_slices(entries, " · ")));
    }
    assert(line_views(rows@) =~= line_views(old(rows)@) + list_part(key@, slice_views(entries@)));
}

fn push_prose(rows: &mut Vec<Line>, name: &str, text: &str)
    ensures
        line_views(final(rows)@) == line_views(old(rows)@) + prose_part(name@, text@),
{
    if blank(text) {
        assert(line_views(rows@) =~= line_views(old(rows)@) + prose_part(name@, text@));
        return;
    }
    push_heading(rows, name);
    let pieces = split_lines(text);
    let ghost body = lines(text@).map_values(|l: Seq<char>| text_line(l));
    let ghost above = line_views(old(rows)@);
    assert(body.take(0) =~= Seq::<LineView>::empty());
    let mut i: usize = 0;
    while i < pieces.len()
        invariant
            i <= pieces@.len(),
            slice_views(pieces@) == lines(text@),
            body == lines(text@).map_values(|l: Seq<char>| text_line(l)),
            line_views(rows@) == above + headed(name@, body.take(i as int)),
        decreases pieces@.len() - i,
    {
        let ghost before = line_views(rows@);
        push_line(rows, text_row(pieces[i]));
        proof {
            assert(lines(text@)[i as int] == pieces@[i as int]@);
            assert(body.take(i + 1) =~= body.take(i as int).push(text_line(pieces@[i as int]@)));
            assert(above + headed(name@, body.take(i + 1)) =~= before.push(
                text_line(pieces@[i as int]@),
            ));
        }
        i = i + 1;
    }
    assert(body.take(pieces@.len() as int) =~= body);
}

/// Adds the lines of a description, unless it is blank.
pub fn push_description(rows: &mut Vec<Line>, description: &str)
    ensures
        line_views(final(rows)@) == line_views(old(rows)@) + prose_part(
            "Description"@,
            description@,
        ),
{
    push_prose(rows, "Description", description);
}

fn reference_row(n: u64, url: &str) -> (r: Line)
    ensures
        r@ == reference_line(n as nat, url@),
{
    let mut number = "  ".to_owned();
    number.append(padded_left(decimal_text(n).as_str(), 2).as_str());
    number.append(". ");
    let mut r = Line::of(Span::styled(number, Style::faint()));
    r.push(Span::styled(url.to_owned(), Style { underlined: true, ..Style::color(Color::Blue) }));
    r
}

/// Adds the references, numbered from 1 on, unless there are none.
pub fn push_references(rows: &mut Vec<Line>, refs: &Vec<&str>)
    ensures
        line_views(final(rows)@) == line_views(old(rows)@) + references_part(slice_views(refs@)),
{
    if refs.len() == 0 {
        assert(line_views(rows@) =~= line_views(old(rows)@) + references_part(slice_views(refs@)));
        return;
    }
    push_heading(rows, "References (press 1-9 to open)");
    let ghost all = slice_views(refs@);
    let ghost body = all.map(|i: int, r: Seq<char>| reference_line((i + 1) as nat, r));
    let ghost above = line_views(old(rows)@);
    let ghost name = "References (press 1-9 to open)"@;
    assert(body.take(0) =~= Seq::<LineView>::empty());
    let mut i: usize = 0;
    while i < refs.len()
        invariant
            i <= refs@.len(),
            all == slice_views(refs@),
            body == all.map(|i: int, r: Seq<char>| reference_line((i + 1) as nat, r)),
            line_views(rows@) == above + headed(name, body.take(i as int)),
        decreases refs@.len() - i,
    {
        let ghost before = line_views(rows@);
        let n: u64 = i as u64 + 1;
        push_line(rows, reference_row(n, refs[i]));
        proof {
            assert(all[i as int] == refs@[i as int]@);
            assert(body.take(i + 1) =~= body.take(i as int).push(reference_line(n as nat, all[i as int])));
            assert(above + headed(name, body.take(i + 1)) =~= before.push(
                reference_line(n as nat, all[i as int]),
            ));
        }
        i = i + 1;
    }
    assert(body.take(refs@.len() as int) =~= body);
}

fn product_row(p: &ProductRef, with_vendor: bool) -> (r: Line)
    ensures
        r@ == product_line(p@, with_vendor),
{
    let mut text = "  • ".to_owned();
    if with_vendor {
        if let Some(v) = &p.product.vendor {
            let mut prefix = v.name.clone();
            prefix.append(" — ");
            text.append(prefix.as_str());
        }
    }
    assert(text@ =~= "  • "@ + (if with_vendor {
        vendor_prefix(p@)
    } else {
        seq![]
    }));
    text.append(p.product.name.as_str());
    let ghost named = text@;
    if let Some(v) = &p.product_version {
        if !v.as_str().is_empty() {
            let mut suffix = "  (".to_owned();
            suffix.append(v.as_str());
            suffix.append(")");
            text.append(suffix.as_str());
        }
    }
    assert(text@ =~= named + version_suffix(p@));
    text_row(text.as_str())
}

fn push_products(rows: &mut Vec<Line>, products: &Vec<ProductRef>, with_vendor: bool)
    ensures
        line_views(final(rows)@) == line_views(old(rows)@) + products_part(
            product_views(products@),
            with_vendor,
        ),
{
    let ghost all = product_views(products@);
    if products.len() == 0 {
        assert(line_views(rows@) =~= line_views(old(rows)@) + products_part(all, with_vendor));
        return;
    }
    push_heading(rows, "Affected products");
    let ghost body = all.map_values(|p: ProductRefView| product_line(p, with_vendor));
    let ghost above = line_views(old(rows)@);
    let ghost name = "Affected products"@;
    assert(body.take(0) =~= Seq::<LineView>::empty());
    let mut i: usize = 0;
    while i < products.len()
        invariant
            i <= products@.len(),
            all == product_views(products@),
            body == all.map_values(|p: ProductRefView| product_line(p, with_vendor)),
            line_views(rows@) == above + headed(name, body.take(i as int)),
        decreases products@.len() - i,
    {
        let ghost before = line_views(rows@);
        push_line(rows, product_row(&products[i], with_vendor));
        proof {
            let shown = product_line(products@[i as int]@, with_vendor);
            assert(all[i as int] == products@[i as int]@);
            assert(body.take(i + 1) =~= body.take(i as int).push(shown));
            assert(above + headed(name, body.take(i + 1)) =~= before.push(shown));
        }
        i = i + 1;
    }
    assert(body.take(products@.len() as int) =~= body);
}

// --- vulnerabilities -----------------------------------------------------------------------

/// The key of the line with the scores.
pub open spec fn cvss_key() -> SpanView {
    styled(pad_left("CVSS"@, 10) + ": "@, dimmed())
}

/// The CVSS score of a vulnerability, and the version of CVSS if it is given.
pub open spec fn base_score_spans(v: VulnerabilityView) -> LineView {
    match v.base_score {
        Some(s) => seq![styled(s.tenths, score_style_of(s.bits))] + match v.base_score_version {
            Some(ver) => seq![raw(" (v"@ + ver + ")"@)],
            None => seq![],
        },
        None => seq![raw("—"@)],
    }
}

/// The EPSS score of a vulnerability, if it has one.
pub open spec fn epss_spans(v: VulnerabilityView) -> LineView {
    match v.epss {
        Some(e) => seq![raw("   EPSS: "@ + e.hundredths + "%"@)],
        None => seq![],
    }
}

/// The line with the scores of a vulnerability.
pub open spec fn score_line(v: VulnerabilityView) -> LineView {
    seq![cvss_key()] + base_score_spans(v) + epss_spans(v)
}

/// The value, or the empty text.
pub open spec fn or_empty(value: Option<Seq<char>>) -> Seq<char> {
    match value {
        Some(v) => v,
        None => seq![],
    }
}

/// The names of the vendors.
pub open spec fn vendor_names(vendors: Seq<VendorRefView>) -> Seq<Seq<char>> {
    vendors.map_values(|r: VendorRefView| r.vendor.name)
}

/// The lines of a vulnerability.
pub open spec fn lines_of_vuln(v: VulnerabilityView) -> Seq<LineView> {
    seq![score_line(v)] + kv_part("Vector"@, or_empty(v.base_score_vector)) + list_part(
        "Aliases"@,
        nonblank_lines(v.aliases),
    ) + kv_part("Assigner"@, v.assigner) + kv_part("Published"@, v.date_published) + kv_part(
        "Updated"@,
        v.date_updated,
    ) + list_part("Vendors"@, vendor_names(v.vendors)) + products_part(v.products, true)
        + prose_part("Description"@, v.description) + references_part(nonblank_lines(v.references))
}

fn score_row(v: &Vulnerability) -> (r: Line)
    ensures
        r@ == score_line(v@),
{
    let mut r = Line::of(key_span("CVSS"));
    match &v.base_score {
        Some(s) => {
            r.push(Span::styled(s.tenths.clone(), score_style(s)));
            if let Some(ver) = &v.base_score_version {
                let mut text = " (v".to_owned();
                text.append(ver.as_str());
                text.append(")");
                r.push(Span::raw(text));
            }
        },
        None => r.push(Span::raw("—".to_owned())),
    }
    assert(r@ =~= seq![cvss_key()] + base_score_spans(v@));
    let ghost before = r@;
    if let Some(e) = &v.epss {
        let mut text = "   EPSS: ".to_owned();
        text.append(e.hundredths.as_str());
        text.append("%");
        r.push(Span::raw(text));
    }
    assert(r@ =~= before + epss_spans(v@));
    r
}

fn names_of(vendors: &Vec<VendorRef>) -> (r: Vec<&str>)
    ensures
        slice_views(r@) == vendor_names(vendor_views(vendors@)),
{
    let ghost all = vendor_names(vendor_views(vendors@));
    let mut r: Vec<&str> = Vec::new();
    let mut i: usize = 0;
    assert(slice_views(r@) =~= all.take(0));
    while i < vendors.len()
        invariant
            i <= vendors@.len(),
            all == vendor_names(vendor_views(vendors@)),
            slice_views(r@) == all.take(i as int),
        decreases vendors@.len() - i,
    {
        let ghost before = slice_views(r@);
        let name = vendors[i].vendor.name.as_str();
        r.push(name);
        assert(slice_views(r@) =~= before.push(name@));
        assert(all.take(i + 1) =~= all.take(i as int).push(name@));
        i = i + 1;
    }
    assert(all.take(vendors@.len() as int) =~= all);
    r
}

/// The lines of a vulnerability.
pub fn vuln_lines(v: &Vulnerability) -> (r: Vec<Line>)
    ensures
        line_views(r@) == lines_of_vuln(v@),
{
    let mut rows: Vec<Line> = Vec::new();
    push_line(&mut rows, score_row(v));
    assert(line_views(rows@) =~= seq![score_line(v@)]);
    let vector = match &v.base_score_vector {
        Some(s) => s.as_str(),
        None => "",
    };
    proof {
        reveal_strlit("");
        assert(vector@ =~= or_empty(v@.base_score_vector));
    }
    push_kv(&mut rows, "Vector", vector);
    push_list(&mut rows, "Aliases", &v.alias_lines());
    push_kv(&mut rows, "Assigner", v.assigner.as_str());
    push_kv(&mut rows, "Published", v.date_published.as_str());
    push_kv(&mut rows, "Updated", v.date_updated.as_str());
    push_list(&mut rows, "Vendors", &names_of(&v.vendors));
    push_products(&mut rows, &v.products, true);
    push_description(&mut rows, v.description.as_str());
    push_references(&mut rows, &v.reference_lines());
    rows
}

// --- advisories ----------------------------------------------------------------------------

/// The line with the CVSS score of an advisory, if the score is above 0.
pub open spec fn advisory_score_part(score: Option<ScoreView>) -> Seq<LineView> {
    match score {
        Some(s) => if positive(s.bits) {
            seq![seq![cvss_key(), styled(s.tenths, score_style_of(s.bits))]]
        } else {
            seq![]
        },
        None => seq![],
    }
}

/// The line with the source of an advisory, if it has one.
pub open spec fn source_part(a: AdvisoryView) -> Seq<LineView> {
    match a.source {
        Some(src) => seq![kv_line("Source"@, src.name)],
        None => seq![],
    }
}

/// The lines of an advisory.
pub open spec fn lines_of_advisory(a: AdvisoryView) -> Seq<LineView> {
    source_part(a) + advisory_score_part(a.base_score) + kv_part("Published"@, a.date_published)
        + kv_part("Updated"@, a.date_updated) + list_part("Aliases"@, nonblank_lines(a.aliases))
        + products_part(a.products, false) + prose_part("Summary"@, a.summary) + prose_part(
        "Description"@,
        a.description,
    ) + references_part(nonblank_lines(a.references))
}

/// The lines of an advisory.
pub fn advisory_lines(a: &Advisory) -> (r: Vec<Line>)
    ensures
        line_views(r@) == lines_of_advisory(a@),
{
    let mut rows: Vec<Line> = Vec::new();
    if let Some(src) = &a.source {
        push_line(&mut rows, kv("Source", src.name.clone()));
    }
    assert(line_views(rows@) =~= source_part(a@));
    let ghost before = line_views(rows@);
    if let Some(s) = &a.base_score {
        if s.is_positive() {
            let mut row = Line::of(key_span("CVSS"));
            row.push(Span::styled(s.tenths.clone(), score_style(s)));
            assert(row@ =~= seq![cvss_key(), styled(s.tenths@, score_style_of(s.bits))]);
            push_line(&mut rows, row);
        }
    }
    assert(line_views(rows@) =~= before + advisory_score_part(a@.base_score));
    push_kv(&mut rows, "Published", a.date_published.as_str());
    push_kv(&mut rows, "Updated", a.date_updated.as_str());
    push_list(&mut rows, "Aliases", &trimmed_lines(a.aliases.as_str()));
    push_products(&mut rows, &a.products, false);
    push_prose(&mut rows, "Summary", a.summary.as_str());
    push_description(&mut rows, a.description.as_str());
    push_references(&mut rows, &trimmed_lines(a.references.as_str()));
    rows
}

// --- help ------------------------------------------------------------------------------------

/// A key and what it does.
pub open spec fn key_line(key: Seq<char>, what: Seq<char>) -> LineView {
    seq![styled("  "@ + pad_right(key, 12), colored(ACCENT)), raw(what)]
}

/// The lines of the help.
pub open spec fn lines_of_help() -> Seq<LineView> {
    seq![
        Seq::<SpanView>::empty(),
        section_line(" Navigation"@),
        key_line("1-5, Tab"@, "switch tabs"@),
        key_line("j/k, ↑↓"@, "move selection / scroll"@),
        key_line("g/G"@, "jump to top / bottom"@),
        key_line("Enter"@, "open details / run search"@),
        key_line("Esc"@, "back / leave input"@),
        Seq::<SpanView>::empty(),
        section_line(" Search"@),
        key_line("/"@, "focus filters"@),
        key_line("n/p"@, "next / previous page"@),
        key_line("Space"@, "cycle exploited / pick assigners"@),
        key_line("←/→"@, "move cursor in a text input"@),
        key_line("Ctrl-U"@, "clear focused field"@),
        key_line("r"@, "re-run search / refresh feed"@),
        Seq::<SpanView>::empty(),
        section_line(" Details"@),
        key_line("1-9"@, "open n-th reference in browser"@),
        key_line("o"@, "open first reference"@),
        Seq::<SpanView>::empty(),
        section_line(" General"@),
        key_line("?"@, "toggle this help"@),
        key_line("q, Ctrl-C"@, "quit"@),
        key_line("Ctrl+"@, "zoom in"@),
        key_line("Ctrl-"@, "zoom out"@),
    ]
}

fn key_row(key: &str, what: &str) -> (r: Line)
    ensures
        r@ == key_line(key@, what@),
{
    let mut text = "  ".to_owned();
    text.append(padded_right(key, 12).as_str());
    let mut r = Line::of(Span::styled(text, Style::color(ACCENT)));
    r.push(Span::raw(what.to_owned()));
    r
}

/// The lines of the help.
pub fn help_lines() -> (r: Vec<Line>)
    ensures
        line_views(r@) == lines_of_help(),
{
    let r = vec![
        Line::empty(),
        section(" Navigation"),
        key_row("1-5, Tab", "switch tabs"),
        key_row("j/k, ↑↓", "move selection / scroll"),
        key_row("g/G", "jump to top / bottom"),
        key_row("Enter", "open details / run search"),
        key_row("Esc", "back / leave input"),
        Line::empty(),
        section(" Search"),
        key_row("/", "focus filters"),
        key_row("n/p", "next / previous page"),
        key_row("Space", "cycle exploited / pick assigners"),
        key_row("←/→", "move cursor in a text input"),
        key_row("Ctrl-U", "clear focused field"),
        key_row("r", "re-run search / refresh feed"),
        Line::empty(),
        section(" Details"),
        key_row("1-9", "open n-th reference in browser"),
        key_row("o", "open first reference"),
        Line::empty(),
        section(" General"),
        key_row("?", "toggle this help"),
        key_row("q, Ctrl-C", "quit"),
        key_row("Ctrl+", "zoom in"),
        key_row("Ctrl-", "zoom out"),
    ];
    assert(line_views(r@) =~= lines_of_help());
    r
}

} // verus!
