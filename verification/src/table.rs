//! Result assembly: the total order on enriched items (infusion
//! category first, then infusion power descending), a verified
//! insertion sort imposing it, and the fixed-column table whose widths
//! come from the widest value each column holds.

use vstd::prelude::*;

use crate::digits;
use crate::dtos::{
    spec_infusion_category, spec_infusion_power_num, spec_stat_num, ItemResponse, ItemResponseView,
};
use crate::enums;
use crate::text;

verus! {

/// The report's order: infusion category lexicographically, and inside
/// one category the infusion power descending.
pub open spec fn item_le(a: ItemResponseView, b: ItemResponseView) -> bool {
    if spec_infusion_category(a) == spec_infusion_category(b) {
        spec_infusion_power_num(a) >= spec_infusion_power_num(b)
    } else {
        text::lex_le(spec_infusion_category(a), spec_infusion_category(b))
    }
}

/// Any two items are ordered one way or the other.
pub proof fn lemma_item_le_total(a: ItemResponseView, b: ItemResponseView)
    ensures
        item_le(a, b) || item_le(b, a),
{
    if spec_infusion_category(a) != spec_infusion_category(b) {
        text::lemma_lex_le_total(spec_infusion_category(a), spec_infusion_category(b));
    }
}

/// The order is transitive.
pub proof fn lemma_item_le_transitive(a: ItemResponseView, b: ItemResponseView, c: ItemResponseView)
    requires
        item_le(a, b),
        item_le(b, c),
    ensures
        item_le(a, c),
{
    let ca = spec_infusion_category(a);
    let cb = spec_infusion_category(b);
    let cc = spec_infusion_category(c);
    if ca == cb && cb == cc {
    } else if ca == cb {
        assert(ca != cc);
    } else if cb == cc {
        assert(ca != cc);
    } else {
        text::lemma_lex_le_transitive(ca, cb, cc);
        if ca == cc {
            text::lemma_lex_le_antisymmetric(ca, cb);
        }
    }
}

/// Decides the order on two items.
pub fn item_le_exec(a: &ItemResponse, b: &ItemResponse) -> (r: bool)
    ensures
        r == item_le(a.deep_view(), b.deep_view()),
{
    let ca = a.infusion_category();
    let cb = b.infusion_category();
    if text::str_eq(ca.as_str(), cb.as_str()) {
        a.infusion_power_num() >= b.infusion_power_num()
    } else {
        text::str_lex_le(ca.as_str(), cb.as_str())
    }
}

/// The sequence is ordered under `item_le`.
pub open spec fn items_sorted(s: Seq<ItemResponse>) -> bool {
    forall|i: int, j: int|
        0 <= i < j < s.len() ==> item_le((#[trigger] s[i]).deep_view(), (#[trigger] s[j]).deep_view())
}

proof fn lemma_insert_keeps_multiset(s: Seq<ItemResponse>, p: int, x: ItemResponse)
    requires
        0 <= p <= s.len(),
    ensures
        s.insert(p, x).to_multiset() == s.to_multiset().insert(x),
{
    broadcast use vstd::seq_lib::group_to_multiset_ensures;

    let t = s.insert(p, x);
    assert(t.remove(p) =~= s);
    assert(t[p] == x);
    assert(t.remove(p).to_multiset() =~= t.to_multiset().remove(x));
    assert(t.to_multiset().contains(x)) by {
        assert(t[p] == x);
    }
    assert(t.to_multiset() =~= t.to_multiset().remove(x).insert(x));
}

/// Sorts the enriched items: primarily by infusion category
/// (lexicographic), secondarily by infusion power descending. The
/// result is a permutation of the input and totally ordered.
pub fn sort_items(items: Vec<ItemResponse>) -> (r: Vec<ItemResponse>)
    ensures
        r@.len() == items@.len(),
        r@.to_multiset() == items@.to_multiset(),
        items_sorted(r@),
{
    broadcast use vstd::seq_lib::group_to_multiset_ensures;

    let mut v = items;
    let ghost orig = v@;
    let len: usize = v.len();
    let mut i: usize = 1;
    if len <= 1 {
        return v;
    }
    while i < len
        invariant
            1 <= i <= len,
            v@.len() == len,
            len == orig.len(),
            v@.to_multiset() == orig.to_multiset(),
            items_sorted(v@.take(i as int)),
        decreases len - i,
    {
        // find where the element at i belongs inside the sorted prefix
        let mut p: usize = 0;
        while p < i && item_le_exec(&v[p], &v[i])
            invariant
                0 <= p <= i < len,
                v@.len() == len,
                forall|a: int|
                    0 <= a < p ==> item_le((#[trigger] v@[a]).deep_view(), v@[i as int].deep_view()),
            decreases i - p,
        {
            p = p + 1;
        }
        proof {
            if p < i {
                lemma_item_le_total(v@[p as int].deep_view(), v@[i as int].deep_view());
                assert(item_le(v@[i as int].deep_view(), v@[p as int].deep_view()));
            }
        }
        let ghost before = v@;
        let x = v.remove(i);
        v.insert(p, x);
        proof {
            broadcast use vstd::seq_lib::group_to_multiset_ensures;

            assert forall|a: int, b2: int| 0 <= a < b2 < i implies item_le(
                (#[trigger] before[a]).deep_view(),
                (#[trigger] before[b2]).deep_view(),
            ) by {
                assert(before.take(i as int)[a] == before[a]);
                assert(before.take(i as int)[b2] == before[b2]);
                assert(item_le(
                    (before.take(i as int)[a]).deep_view(),
                    (before.take(i as int)[b2]).deep_view(),
                ));
            }
            let after = before.remove(i as int).insert(p as int, x);
            assert(v@ == after);
            assert(before.remove(i as int).to_multiset() == before.to_multiset().remove(
                before[i as int],
            ));
            lemma_insert_keeps_multiset(before.remove(i as int), p as int, x);
            assert(v@.to_multiset() =~= before.to_multiset());
            // the prefix one longer is sorted again
            assert forall|a: int, b: int| 0 <= a < b < i + 1 implies item_le(
                (#[trigger] v@[a]).deep_view(),
                (#[trigger] v@[b]).deep_view(),
            ) by {
                let x_v = x.deep_view();
                // positions in the new prefix map back to the old one
                if a < p && b < p {
                    assert(v@[a] == before[a]);
                    assert(v@[b] == before[b]);
                } else if a < p && b == p {
                    assert(v@[a] == before[a]);
                    assert(v@[b] == x);
                } else if a < p && b > p {
                    assert(v@[a] == before[a]);
                    assert(v@[b] == before[b - 1]);
                } else if a == p {
                    assert(v@[a] == x);
                    assert(v@[b] == before[b - 1]);
                    if p < i {
                        assert(item_le(x_v, before[p as int].deep_view()));
                        if b - 1 > p {
                            assert(item_le(before[p as int].deep_view(), before[b - 1].deep_view()));
                            lemma_item_le_transitive(
                                x_v,
                                before[p as int].deep_view(),
                                before[b - 1].deep_view(),
                            );
                        }
                    }
                } else {
                    assert(v@[a] == before[a - 1]);
                    assert(v@[b] == before[b - 1]);
                }
            }
        }
        i = i + 1;
    }
    proof {
        assert(v@.take(len as int) =~= v@);
    }
    v
}

/// One column of the report.
#[derive(Clone, Copy, Debug, PartialEq, Eq, Structural)]
pub enum FieldKind {
    /// The character holding the item.
    Holding,
    /// The bucket's display name.
    BucketName,
    /// The item's display name.
    ItemName,
    /// The item's tier name.
    Tier,
    /// The item's type display name.
    Kind,
    /// The displayed infusion power.
    InfusionPower,
    /// The raw primary stat.
    EffectivePower,
    /// The infusion category name.
    InfusionCategory,
}

/// What a column shows for one item.
pub open spec fn spec_cell(kind: FieldKind, it: ItemResponseView) -> Seq<char> {
    match kind {
        FieldKind::Holding => match it.character_id {
            Some(c) => c,
            None => Seq::empty(),
        },
        FieldKind::BucketName => match it.bucket {
            Some(b) => match b.display_properties.name {
                Some(n) => n,
                None => Seq::empty(),
            },
            None => Seq::empty(),
        },
        FieldKind::ItemName => match it.item_def {
            Some(d) => match d.display_properties.name {
                Some(n) => n,
                None => Seq::empty(),
            },
            None => Seq::empty(),
        },
        FieldKind::Tier => match it.item_def {
            Some(d) => enums::spec_tier_name(d.inventory.tier_type),
            None => Seq::empty(),
        },
        FieldKind::Kind => match it.item_def {
            Some(d) => d.item_type_display_name,
            None => Seq::empty(),
        },
        FieldKind::InfusionPower => digits::dec_str_signed(spec_infusion_power_num(it)),
        FieldKind::EffectivePower => digits::dec_str_signed(spec_stat_num(it)),
        FieldKind::InfusionCategory => spec_infusion_category(it),
    }
}

/// Renders one cell.
pub fn cell(kind: FieldKind, it: &ItemResponse) -> (r: String)
    ensures
        r@ == spec_cell(kind, it.deep_view()),
{
    match kind {
        FieldKind::Holding => it.holding_status(),
        FieldKind::BucketName => it.bucket_name(),
        FieldKind::ItemName => it.item_name(),
        FieldKind::Tier => it.tier(),
        FieldKind::Kind => it.item_kind(),
        FieldKind::InfusionPower => it.infusion_power(),
        FieldKind::EffectivePower => it.stat_value(),
        FieldKind::InfusionCategory => it.infusion_category(),
    }
}

/// One column with the width it has been grown to.
#[derive(Debug)]
pub struct Field {
    pub name: String,
    pub kind: FieldKind,
    pub width: usize,
}

impl Field {
    /// Grows the width to cover one more item's cell.
    pub fn sample_width(&mut self, t: &ItemResponse)
        ensures
            final(self).name == old(self).name,
            final(self).kind == old(self).kind,
            final(self).width as int == if spec_cell(old(self).kind, t.deep_view()).len() > old(
                self,
            ).width as int {
                spec_cell(old(self).kind, t.deep_view()).len() as int
            } else {
                old(self).width as int
            },
    {
        let c = cell(self.kind, t);
        let l: usize = c.as_str().unicode_len();
        if l > self.width {
            self.width = l;
        }
    }

    /// The column's header, padded to its width.
    pub fn format_name(&self) -> (r: String)
        ensures
            self.name@.len() >= self.width ==> r@ == self.name@,
            self.name@.len() < self.width ==> r@ == self.name@ + text::spaces(
                (self.width - self.name@.len()) as nat,
            ),
    {
        text::pad_right(&self.name, self.width)
    }

    /// One item's cell, padded to the column's width.
    pub fn format(&self, t: &ItemResponse) -> (r: String)
        ensures
            spec_cell(self.kind, t.deep_view()).len() >= self.width ==> r@ == spec_cell(
                self.kind,
                t.deep_view(),
            ),
            spec_cell(self.kind, t.deep_view()).len() < self.width ==> r@ == spec_cell(
                self.kind,
                t.deep_view(),
            ) + text::spaces((self.width - spec_cell(self.kind, t.deep_view()).len()) as nat),
    {
        let c = cell(self.kind, t);
        text::pad_right(&c, self.width)
    }
}

/// A table under construction: its columns, in order.
#[derive(Debug)]
pub struct Printer {
    pub fields: Vec<Field>,
}

/// A printer with no columns yet.
pub fn printer() -> (r: Printer)
    ensures
        r.fields@.len() == 0,
{
    Printer { fields: Vec::new() }
}

impl Printer {
    /// Adds a column; its width starts at its header's width.
    pub fn field(self, name: &str, kind: FieldKind) -> (r: Printer)
        ensures
            r.fields@.len() == self.fields@.len() + 1,
            forall|k: int| 0 <= k < self.fields@.len() ==> r.fields@[k] == self.fields@[k],
            r.fields@.last().name@ == name@,
            r.fields@.last().kind == kind,
            r.fields@.last().width as int == name@.len(),
    {
        let width: usize = name.unicode_len();
        let mut fields = self.fields;
        fields.push(Field { name: name.to_owned(), kind, width });
        Printer { fields }
    }

    /// Fixes every column's width from the widest value it holds over
    /// the whole result set, then captures the rows.
    pub fn with_items(self, items: Vec<ItemResponse>) -> (r: Table)
        ensures
            r.items@ == items@,
            r.printer.fields@.len() == self.fields@.len(),
            forall|k: int|
                0 <= k < self.fields@.len() ==> (#[trigger] r.printer.fields@[k]).kind
                    == self.fields@[k].kind && r.printer.fields@[k].name == self.fields@[k].name,
            // each column's width is exactly what the widest of its
            // header and its cells demands
            forall|k: int|
                0 <= k < self.fields@.len() ==> (#[trigger] r.printer.fields@[k]).width as int
                    == spec_grown_width(
                    self.fields@[k].kind,
                    self.fields@[k].width as int,
                    items@,
                ),
            // in particular, every cell of every row fits its column
            forall|k: int, j: int|
                0 <= k < r.printer.fields@.len() && 0 <= j < items@.len() ==> spec_cell(
                    (#[trigger] r.printer.fields@[k]).kind,
                    (#[trigger] items@[j]).deep_view(),
                ).len() <= r.printer.fields@[k].width as int,
    {
        let mut fields = self.fields;
        let mut k: usize = 0;
        let flen: usize = fields.len();
        while k < flen
            invariant
                0 <= k <= flen,
                fields@.len() == flen,
                flen == self.fields@.len(),
                forall|a: int|
                    0 <= a < flen ==> (#[trigger] fields@[a]).kind == self.fields@[a].kind
                        && fields@[a].name == self.fields@[a].name,
                forall|a: int|
                    k <= a < flen ==> (#[trigger] fields@[a]).width == self.fields@[a].width,
                forall|a: int|
                    0 <= a < k ==> (#[trigger] fields@[a]).width as int == spec_grown_width(
                        self.fields@[a].kind,
                        self.fields@[a].width as int,
                        items@,
                    ),
                forall|a: int, j: int|
                    0 <= a < k && 0 <= j < items@.len() ==> spec_cell(
                        (#[trigger] fields@[a]).kind,
                        (#[trigger] items@[j]).deep_view(),
                    ).len() <= fields@[a].width as int,
            decreases flen - k,
        {
            let mut f = fields.remove(k);
            let ghost fk = f.kind;
            let ghost fname = f.name;
            let ghost w0 = f.width as int;
            let mut j: usize = 0;
            while j < items.len()
                invariant
                    0 <= j <= items@.len(),
                    f.kind == fk,
                    f.name == fname,
                    f.width as int == spec_grown_width(fk, w0, items@.take(j as int)),
                    forall|b: int|
                        0 <= b < j ==> spec_cell(fk, (#[trigger] items@[b]).deep_view()).len()
                            <= f.width as int,
                decreases items@.len() - j,
            {
                let ghost wb = f.width;
                f.sample_width(&items[j]);
                proof {
                    assert(f.width >= wb);
                    let t = items@.take(j + 1);
                    assert(t.drop_last() =~= items@.take(j as int));
                    assert(t.last() == items@[j as int]);
                }
                j = j + 1;
            }
            proof {
                assert(items@.take(items@.len() as int) =~= items@);
            }
            fields.insert(k, f);
            k = k + 1;
        }
        Table { printer: Printer { fields }, items }
    }
}

/// The width a column grows to over a batch: the running maximum of the
/// starting width and each item's cell width, in order.
pub open spec fn spec_grown_width(kind: FieldKind, start: int, items: Seq<ItemResponse>) -> int
    decreases items.len(),
{
    if items.len() == 0 {
        start
    } else {
        let prev = spec_grown_width(kind, start, items.drop_last());
        let cell_len = spec_cell(kind, items.last().deep_view()).len() as int;
        if cell_len > prev {
            cell_len
        } else {
            prev
        }
    }
}

/// The finished report: fixed columns and the rows they show.
#[derive(Debug)]
pub struct Table {
    pub printer: Printer,
    pub items: Vec<ItemResponse>,
}

/// A text padded on the right out to a column's width.
pub open spec fn spec_padded(s: Seq<char>, w: int) -> Seq<char> {
    if s.len() >= w {
        s
    } else {
        s + text::spaces((w - s.len()) as nat)
    }
}

/// The padded header cells, in column order.
pub open spec fn spec_header_cells(fields: Seq<Field>) -> Seq<Seq<char>> {
    fields.map_values(|f: Field| spec_padded(f.name@, f.width as int))
}

/// The padded cells of one row, in column order.
pub open spec fn spec_row_cells(fields: Seq<Field>, it: ItemResponseView) -> Seq<Seq<char>> {
    fields.map_values(|f: Field| spec_padded(spec_cell(f.kind, it), f.width as int))
}

/// Texts joined with ` | `.
pub open spec fn spec_join_line(parts: Seq<Seq<char>>) -> Seq<char>
    decreases parts.len(),
{
    if parts.len() == 0 {
        Seq::empty()
    } else if parts.len() == 1 {
        parts[0]
    } else {
        spec_join_line(parts.drop_last()) + " | "@ + parts.last()
    }
}

/// The rows of the report: each item's joined line, each ended with a
/// newline.
pub open spec fn spec_rows(fields: Seq<Field>, items: Seq<ItemResponse>) -> Seq<char>
    decreases items.len(),
{
    if items.len() == 0 {
        Seq::empty()
    } else {
        spec_rows(fields, items.drop_last()) + spec_join_line(
            spec_row_cells(fields, items.last().deep_view()),
        ) + "\n"@
    }
}

/// The whole report: nothing for an empty table, otherwise the header
/// line and then one line per item.
pub open spec fn spec_render(fields: Seq<Field>, items: Seq<ItemResponse>) -> Seq<char> {
    if items.len() == 0 {
        Seq::empty()
    } else {
        spec_join_line(spec_header_cells(fields)) + "\n"@ + spec_rows(fields, items)
    }
}

impl Table {
    /// One line: the given texts joined with ` | `.
    fn join_line(parts: &Vec<String>) -> (r: String)
        ensures
            r@ == spec_join_line(parts.deep_view()),
    {
        let ghost pview = parts.deep_view();
        let mut r = String::new();
        let mut i: usize = 0;
        proof {
            reveal_strlit(" | ");
        }
        while i < parts.len()
            invariant
                0 <= i <= parts@.len(),
                pview == parts.deep_view(),
                pview.len() == parts@.len(),
                forall|k: int| 0 <= k < pview.len() ==> #[trigger] pview[k] == parts@[k]@,
                r@ == spec_join_line(pview.take(i as int)),
            decreases parts@.len() - i,
        {
            proof {
                reveal_strlit(" | ");
                let t = pview.take(i + 1);
                assert(t.drop_last() =~= pview.take(i as int));
                assert(t.last() == pview[i as int]);
                if i == 0 {
                    assert(spec_join_line(t) =~= pview[0]);
                }
            }
            if i > 0 {
                r.append(" | ");
            }
            r.append(parts[i].as_str());
            proof {
                if i == 0 {
                    assert(r@ =~= spec_join_line(pview.take(1)));
                }
            }
            i = i + 1;
        }
        proof {
            assert(pview.take(parts@.len() as int) =~= pview);
        }
        r
    }

    /// Pads every header name to its column's width, in order.
    fn header_cells(&self) -> (r: Vec<String>)
        ensures
            r.deep_view() == spec_header_cells(self.printer.fields@),
    {
        let mut names: Vec<String> = Vec::new();
        let mut k: usize = 0;
        while k < self.printer.fields.len()
            invariant
                0 <= k <= self.printer.fields@.len(),
                names@.len() == k,
                forall|a: int|
                    0 <= a < k ==> (#[trigger] names@[a])@ == spec_padded(
                        self.printer.fields@[a].name@,
                        self.printer.fields@[a].width as int,
                    ),
            decreases self.printer.fields@.len() - k,
        {
            names.push(self.printer.fields[k].format_name());
            k = k + 1;
        }
        proof {
            assert(names.deep_view() =~= spec_header_cells(self.printer.fields@));
        }
        names
    }

    /// Pads one item's cells to their columns' widths, in order.
    fn row_cells(&self, j: usize) -> (r: Vec<String>)
        requires
            j < self.items@.len(),
        ensures
            r.deep_view() == spec_row_cells(self.printer.fields@, self.items@[j as int].deep_view()),
    {
        let mut cells: Vec<String> = Vec::new();
        let mut k: usize = 0;
        while k < self.printer.fields.len()
            invariant
                j < self.items@.len(),
                0 <= k <= self.printer.fields@.len(),
                cells@.len() == k,
                forall|a: int|
                    0 <= a < k ==> (#[trigger] cells@[a])@ == spec_padded(
                        spec_cell(self.printer.fields@[a].kind, self.items@[j as int].deep_view()),
                        self.printer.fields@[a].width as int,
                    ),
            decreases self.printer.fields@.len() - k,
        {
            cells.push(self.printer.fields[k].format(&self.items[j]));
            k = k + 1;
        }
        proof {
            assert(cells.deep_view() =~= spec_row_cells(
                self.printer.fields@,
                self.items@[j as int].deep_view(),
            ));
        }
        cells
    }

    /// Renders the table: a header line, then one line per item, each
    /// ended with a newline; an empty table renders as nothing.
    pub fn render(&self) -> (r: String)
        ensures
            r@ == spec_render(self.printer.fields@, self.items@),
    {
        if self.items.len() == 0 {
            return String::new();
        }
        let mut out = String::new();
        let names = self.header_cells();
        out.append(Table::join_line(&names).as_str());
        proof {
            reveal_strlit("\n");
        }
        out.append("\n");
        let ghost header = spec_join_line(spec_header_cells(self.printer.fields@)) + "\n"@;
        proof {
            assert(out@ =~= header + spec_rows(self.printer.fields@, self.items@.take(0)));
        }
        let mut j: usize = 0;
        while j < self.items.len()
            invariant
                0 <= j <= self.items@.len(),
                header == spec_join_line(spec_header_cells(self.printer.fields@)) + "\n"@,
                out@ == header + spec_rows(self.printer.fields@, self.items@.take(j as int)),
            decreases self.items@.len() - j,
        {
            let cells = self.row_cells(j);
            out.append(Table::join_line(&cells).as_str());
            proof {
                reveal_strlit("\n");
            }
            out.append("\n");
            proof {
                let t = self.items@.take(j + 1);
                assert(t.drop_last() =~= self.items@.take(j as int));
                assert(t.last() == self.items@[j as int]);
                assert(out@ =~= header + spec_rows(self.printer.fields@, t));
            }
            j = j + 1;
        }
        proof {
            assert(self.items@.take(self.items@.len() as int) =~= self.items@);
        }
        out
    }
}

/// The fixed report layout over a sorted batch: holding location,
/// bucket name, item name, tier, kind, infusion power, effective
/// power and infusion category.
pub fn table_format(items: Vec<ItemResponse>) -> (r: Table)
    ensures
        items_sorted(r.items@),
        r.items@.to_multiset() == items@.to_multiset(),
        r.items@.len() == items@.len(),
        r.printer.fields@.len() == 8,
        r.printer.fields@.map_values(|f: Field| f.kind) =~= seq![
            FieldKind::Holding,
            FieldKind::BucketName,
            FieldKind::ItemName,
            FieldKind::Tier,
            FieldKind::Kind,
            FieldKind::InfusionPower,
            FieldKind::EffectivePower,
            FieldKind::InfusionCategory,
        ],
        r.printer.fields@[0].name@ == ""@,
        r.printer.fields@[1].name@ == "Bucket Name"@,
        r.printer.fields@[2].name@ == "Item Name"@,
        r.printer.fields@[3].name@ == "Item Tier"@,
        r.printer.fields@[4].name@ == "Item Kind"@,
        r.printer.fields@[5].name@ == "Infusion Power"@,
        r.printer.fields@[6].name@ == "Effective Power"@,
        r.printer.fields@[7].name@ == "Infusion Cat."@,
        // every column's width is exactly what its header and widest
        // cell demand
        forall|k: int|
            0 <= k < 8 ==> (#[trigger] r.printer.fields@[k]).width as int == spec_grown_width(
                r.printer.fields@[k].kind,
                r.printer.fields@[k].name@.len() as int,
                r.items@,
            ),
{
    let sorted = sort_items(items);
    let p = printer().field("", FieldKind::Holding).field("Bucket Name", FieldKind::BucketName)
        .field("Item Name", FieldKind::ItemName).field("Item Tier", FieldKind::Tier).field(
        "Item Kind",
        FieldKind::Kind,
    ).field("Infusion Power", FieldKind::InfusionPower).field(
        "Effective Power",
        FieldKind::EffectivePower,
    ).field("Infusion Cat.", FieldKind::InfusionCategory);
    p.with_items(sorted)
}

} // verus!
