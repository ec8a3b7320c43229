//! The conversion pipeline from an ordered table of per-window
//! telomeric-repeat counts to a stacked SVG line plot.
//!
//! The stages mirror the flow of the data: records are grouped into
//! maximal contiguous runs sharing a chromosome identifier, each group
//! becomes one panel (a scaled polyline path plus summary metadata
//! taken from the group's last record), and the panels that pass the
//! cutoff filter are assembled into a single SVG document.

use vstd::arithmetic::div_mod::{lemma_div_by_multiple, lemma_div_is_ordered};
use vstd::prelude::*;

use crate::decimal::{dec_digits, push_decimal};

verus! {

/// Horizontal margin of the canvas, in SVG user units.
pub const MARGIN: u64 = 40;

/// One row of the input table: the repeat counts seen in one genomic
/// window of one chromosome.  Rows of the same chromosome are expected
/// to be contiguous in the input; the pipeline never sorts.
#[allow(non_snake_case)]
pub struct TelomericRepeatRecord {
    /// Chromosome identifier.
    pub ID: String,
    /// Position of the window along the chromosome.
    pub window: u64,
    /// Number of forward-strand repeats found in the window.
    pub forward_repeat_number: u32,
    /// Number of reverse-strand repeats found in the window.
    pub reverse_repeat_number: u32,
    /// The repeat motif that was searched for.
    pub telomeric_repeat: String,
}

/// One panel of the final document: a chromosome's polyline path and
/// the metadata shown next to it.
pub struct PlotData {
    /// Chromosome identifier.
    pub id: String,
    /// SVG path attribute for the panel's polyline.
    pub path: String,
    /// Window position of the group's last record; the cutoff filter
    /// compares this value.
    pub max: u64,
    /// Repeat motif of the group's last record.
    pub sequence: String,
}

/// Mathematical image of a [`PlotData`] value.
pub ghost struct PanelModel {
    pub id: Seq<char>,
    pub path: Seq<char>,
    pub max: int,
    pub sequence: Seq<char>,
}

impl View for PlotData {
    type V = PanelModel;

    open spec fn view(&self) -> PanelModel {
        PanelModel {
            id: self.id@,
            path: self.path@,
            max: self.max as int,
            sequence: self.sequence@,
        }
    }
}

impl Clone for PlotData {
    /// An exact copy, field for field.
    fn clone(&self) -> (r: Self)
        ensures
            r == *self,
    {
        PlotData {
            id: self.id.clone(),
            path: self.path.clone(),
            max: self.max,
            sequence: self.sequence.clone(),
        }
    }
}

/// Combined repeat count of one window: forward plus reverse.
pub open spec fn combined(r: TelomericRepeatRecord) -> int {
    r.forward_repeat_number + r.reverse_repeat_number
}

/// Greatest combined count over a run of records, zero for an empty
/// run (a run of all-zero counts therefore yields zero).
pub open spec fn max_combined(s: Seq<TelomericRepeatRecord>) -> int
    decreases s.len(),
{
    if s.len() == 0 {
        0
    } else {
        let m = max_combined(s.drop_last());
        if combined(s.last()) >= m {
            combined(s.last())
        } else {
            m
        }
    }
}

/// The combined counts of a run of records, in order.
pub open spec fn counts_of(s: Seq<TelomericRepeatRecord>) -> Seq<int> {
    s.map_values(|r: TelomericRepeatRecord| combined(r))
}

/// The second components of a sequence of (window, combined count)
/// pairs, as mathematical integers.
pub open spec fn counts_of_pairs(s: Seq<(u64, u64)>) -> Seq<int> {
    s.map_values(|p: (u64, u64)| p.1 as int)
}

/// The maximal contiguous runs of records sharing one chromosome
/// identifier, in input order.  Two adjacent records belong to the
/// same run exactly when their identifiers are equal, so an identifier
/// that reappears non-contiguously yields separate runs.
pub open spec fn groups(s: Seq<TelomericRepeatRecord>) -> Seq<Seq<TelomericRepeatRecord>>
    decreases s.len(),
{
    if s.len() == 0 {
        Seq::empty()
    } else {
        let g = groups(s.drop_last());
        let r = s.last();
        if g.len() == 0 || g.last().last().ID@ != r.ID@ {
            g.push(seq![r])
        } else {
            g.update(g.len() - 1, g.last().push(r))
        }
    }
}

/// Index `i` closes a group: it is the last record of the input or the
/// next record carries a different identifier.
pub open spec fn is_group_close(s: Seq<TelomericRepeatRecord>, i: int) -> bool {
    0 <= i < s.len() && (i == s.len() - 1 || s[i].ID@ != s[i + 1].ID@)
}

/// Number of indices below `n` that close a group whose closing record
/// lies beyond the cutoff.
pub open spec fn count_qualifying_upto(s: Seq<TelomericRepeatRecord>, n: int, cutoff: int) -> int
    decreases n,
{
    if n <= 0 {
        0
    } else {
        count_qualifying_upto(s, n - 1, cutoff) + if is_group_close(s, n - 1) && s[n - 1].window
            > cutoff {
            1int
        } else {
            0int
        }
    }
}

/// Number of groups whose closing record's window position exceeds the
/// cutoff, computed by a single pass over the record sequence.
pub open spec fn count_qualifying(s: Seq<TelomericRepeatRecord>, cutoff: int) -> int {
    count_qualifying_upto(s, s.len() as int, cutoff)
}

/// The divisor actually used for vertical scaling: a group whose
/// greatest combined count is zero is drawn as a flat line instead of
/// raising a division error.
pub open spec fn y_divisor(y_max: int) -> int {
    if y_max == 0 {
        1
    } else {
        y_max
    }
}

/// Linear rescaling of a combined count from `[0, y_max]` to
/// `[0, height_per_plot]`.
pub open spec fn spec_scale_y(c: int, height_per_plot: int, y_max: int) -> int {
    (height_per_plot * c) / y_divisor(y_max)
}

/// Vertical coordinate of a point: the scaled count, inverted so that
/// higher counts draw higher on the panel.
pub open spec fn spec_y_coord(c: int, height: int, height_per_plot: int, y_max: int) -> int {
    height - spec_scale_y(c, height_per_plot, y_max)
}

/// Horizontal distance between adjacent points of a panel.
pub open spec fn spec_x_bin(width: int, x_max: int) -> int {
    (width - MARGIN) / x_max
}

/// Horizontal coordinate of the point with 0-based index `i`: points
/// are evenly spaced across the canvas width less the margin, starting
/// one bin after half the margin.
pub open spec fn spec_x_coord(i: int, width: int, x_max: int) -> int {
    MARGIN / 2 + (i + 1) * spec_x_bin(width, x_max)
}

/// The `x,y` text of one path point.
pub open spec fn spec_point(
    i: int,
    c: int,
    x_max: int,
    y_max: int,
    height: int,
    width: int,
    height_per_plot: int,
) -> Seq<char> {
    dec_digits(spec_x_coord(i, width, x_max)) + seq![','] + dec_digits(
        spec_y_coord(c, height, height_per_plot, y_max),
    )
}

/// SVG path attribute text for a run of combined counts: an absolute
/// move-to for the first point, then an absolute line-to for each
/// subsequent point — one open polyline, never closed.
pub open spec fn path_string(
    counts: Seq<int>,
    x_max: int,
    y_max: int,
    height: int,
    width: int,
    height_per_plot: int,
) -> Seq<char>
    decreases counts.len(),
{
    if counts.len() == 0 {
        Seq::empty()
    } else {
        let prefix = if counts.len() == 1 {
            seq!['M']
        } else {
            path_string(counts.drop_last(), x_max, y_max, height, width, height_per_plot) + seq![
                'L',
            ]
        };
        prefix + spec_point(
            counts.len() - 1,
            counts.last(),
            x_max,
            y_max,
            height,
            width,
            height_per_plot,
        )
    }
}

/// The panel generated from one non-empty group: the path over all of
/// the group's records, scaled by the group's own greatest combined
/// count, and the window and motif of the group's last record as
/// summary metadata.
pub open spec fn panel_of(
    group: Seq<TelomericRepeatRecord>,
    height: int,
    width: int,
    height_per_plot: int,
) -> PanelModel
    recommends
        group.len() > 0,
{
    PanelModel {
        id: group.last().ID@,
        path: path_string(
            counts_of(group),
            group.len() as int,
            max_combined(group),
            height,
            width,
            height_per_plot,
        ),
        max: group.last().window as int,
        sequence: group.last().telomeric_repeat@,
    }
}

/// Rescales a combined count from `[0, y_max]` to
/// `[0, height_per_plot]`, guarding the all-zero group by dividing by
/// one instead of zero.
pub fn scale_y(y: u64, height_per_plot: u64, y_max: u64) -> (r: u64)
    requires
        y <= y_max,
    ensures
        r == spec_scale_y(y as int, height_per_plot as int, y_max as int),
        r <= height_per_plot,
{
    let d: u64 = if y_max == 0 {
        1
    } else {
        y_max
    };
    proof {
        let hpp = height_per_plot as int;
        let yy = y as int;
        let dd = d as int;
        assert(0 <= hpp * yy && hpp * yy <= 0xFFFF_FFFF_FFFF_FFFF * 0xFFFF_FFFF_FFFF_FFFF && hpp
            * yy <= dd * hpp) by (nonlinear_arith)
            requires
                0 <= hpp <= 0xFFFF_FFFF_FFFF_FFFF,
                0 <= yy <= 0xFFFF_FFFF_FFFF_FFFF,
                yy <= dd,
        ;
        lemma_div_is_ordered(hpp * yy, dd * hpp, dd);
        lemma_div_by_multiple(hpp, dd);
        assert((hpp * yy) / dd <= hpp);
    }
    let num: u128 = (height_per_plot as u128) * (y as u128);
    let r: u128 = num / (d as u128);
    r as u64
}

/// Builds the SVG path attribute for one panel from the (window,
/// combined count) pairs of a group: a move-to for the first point,
/// then a line-to for each later point, evenly spaced horizontally and
/// vertically rescaled by `y_max` into the panel's height.
pub fn make_path_element(
    path_vec: Vec<(u64, u64)>,
    x_max: usize,
    y_max: u64,
    height: u64,
    width: u64,
    height_per_plot: u64,
) -> (path: String)
    requires
        path_vec@.len() > 0,
        x_max > 0,
        MARGIN <= width,
        height_per_plot <= height,
        forall|k: int| 0 <= k < path_vec@.len() ==> (#[trigger] path_vec@[k]).1 <= y_max,
    ensures
        path@ == path_string(
            counts_of_pairs(path_vec@),
            x_max as int,
            y_max as int,
            height as int,
            width as int,
            height_per_plot as int,
        ),
{
    let ghost counts = counts_of_pairs(path_vec@);
    let x_bin: u64 = (width - MARGIN) / (x_max as u64);
    let mut path = String::new();
    let n: usize = path_vec.len();
    let mut k: usize = 0;
    proof {
        reveal_strlit("M");
        reveal_strlit("L");
        reveal_strlit(",");
        assert(counts.take(0) =~= Seq::<int>::empty());
    }
    while k < n
        invariant
            k <= n,
            n == path_vec@.len(),
            x_max > 0,
            MARGIN <= width,
            height_per_plot <= height,
            forall|m: int| 0 <= m < path_vec@.len() ==> (#[trigger] path_vec@[m]).1 <= y_max,
            counts == counts_of_pairs(path_vec@),
            x_bin as int == spec_x_bin(width as int, x_max as int),
            path@ == path_string(
                counts.take(k as int),
                x_max as int,
                y_max as int,
                height as int,
                width as int,
                height_per_plot as int,
            ),
        decreases n - k,
    {
        if k == 0 {
            path.append("M");
        } else {
            path.append("L");
        }
        proof {
            assert(0 <= ((k as int) + 1) * (x_bin as int) && ((k as int) + 1) * (x_bin as int)
                <= 0x1_0000_0000_0000_0000 * 0xFFFF_FFFF_FFFF_FFFF) by (nonlinear_arith)
                requires
                    0 <= (k as int) + 1 <= 0x1_0000_0000_0000_0000,
                    0 <= x_bin as int <= 0xFFFF_FFFF_FFFF_FFFF,
            ;
        }
        let x: u128 = (MARGIN / 2) as u128 + ((k as u128) + 1) * (x_bin as u128);
        push_decimal(&mut path, x);
        path.append(",");
        let sy: u64 = scale_y(path_vec[k].1, height_per_plot, y_max);
        let y: u64 = height - sy;
        push_decimal(&mut path, y as u128);
        proof {
            reveal_strlit("M");
            reveal_strlit("L");
            reveal_strlit(",");
            assert(x as int == spec_x_coord(k as int, width as int, x_max as int));
            assert(y as int == spec_y_coord(
                counts[k as int],
                height as int,
                height_per_plot as int,
                y_max as int,
            ));
            assert(counts.take(k + 1).drop_last() =~= counts.take(k as int));
            assert(counts.take(k + 1).last() == counts[k as int]);
            assert(path@ =~= path_string(
                counts.take(k + 1),
                x_max as int,
                y_max as int,
                height as int,
                width as int,
                height_per_plot as int,
            ));
        }
        k = k + 1;
    }
    proof {
        assert(counts.take(n as int) =~= counts);
    }
    path
}

/// Counts the groups whose closing record lies beyond the cutoff,
/// including a group closed by the end of the input.  The count drives
/// the canvas height and must agree with the cutoff filter applied to
/// the generated panels.
pub fn chromosome_number(parsed_csv: &Vec<TelomericRepeatRecord>, size: u64) -> (n: usize)
    ensures
        n == count_qualifying(parsed_csv@, size as int),
{
    let len: usize = parsed_csv.len();
    let mut n: usize = 0;
    let mut i: usize = 0;
    while i < len
        invariant
            i <= len,
            len == parsed_csv@.len(),
            n <= i,
            n == count_qualifying_upto(parsed_csv@, i as int, size as int),
        decreases len - i,
    {
        let closes: bool = if i == len - 1 {
            true
        } else {
            !(parsed_csv[i].ID == parsed_csv[i + 1].ID)
        };
        if closes && parsed_csv[i].window > size {
            n = n + 1;
        }
        i = i + 1;
    }
    n
}

/// A non-empty input has a non-empty last group, and that group ends
/// in the input's last record.
pub proof fn lemma_groups_last(s: Seq<TelomericRepeatRecord>)
    requires
        s.len() > 0,
    ensures
        groups(s).len() > 0,
        groups(s).last().len() > 0,
        groups(s).last().last() == s.last(),
    decreases s.len(),
{
    if s.len() > 1 {
        lemma_groups_last(s.drop_last());
    }
}

/// Every combined count of a run is bounded by the run's maximum.
pub proof fn lemma_max_combined_ge(s: Seq<TelomericRepeatRecord>)
    ensures
        forall|k: int| 0 <= k < s.len() ==> combined(#[trigger] s[k]) <= max_combined(s),
        0 <= max_combined(s),
    decreases s.len(),
{
    if s.len() > 0 {
        lemma_max_combined_ge(s.drop_last());
        assert forall|k: int| 0 <= k < s.len() implies combined(#[trigger] s[k]) <= max_combined(
            s,
        ) by {
            if k < s.len() - 1 {
                assert(s.drop_last()[k] == s[k]);
            }
        }
    }
}

/// Appending one whole run of equal identifiers to a record sequence
/// that ends at a group boundary appends exactly one group.
proof fn lemma_groups_extend_run(s: Seq<TelomericRepeatRecord>, g: int, i: int)
    requires
        0 <= g < i <= s.len(),
        g == 0 || s[g - 1].ID@ != s[g].ID@,
        forall|k: int| g <= k < i ==> (#[trigger] s[k]).ID@ == s[g].ID@,
    ensures
        groups(s.take(i)) == groups(s.take(g)).push(s.subrange(g, i)),
    decreases i - g,
{
    if i == g + 1 {
        assert(s.take(i).drop_last() =~= s.take(g));
        assert(s.take(i).last() == s[g]);
        if g > 0 {
            lemma_groups_last(s.take(g));
            assert(s.take(g).last() == s[g - 1]);
        }
        assert(s.subrange(g, i) =~= seq![s[g]]);
    } else {
        lemma_groups_extend_run(s, g, i - 1);
        assert(s.take(i).drop_last() =~= s.take(i - 1));
        assert(s.take(i).last() == s[i - 1]);
        let prev = groups(s.take(g)).push(s.subrange(g, i - 1));
        assert(prev.last() == s.subrange(g, i - 1));
        assert(prev.last().last() == s[i - 2]);
        assert(s[i - 2].ID@ == s[i - 1].ID@);
        assert(groups(s.take(i)) == prev.update(
            prev.len() - 1,
            s.subrange(g, i - 1).push(s[i - 1]),
        ));
        assert(s.subrange(g, i - 1).push(s[i - 1]) =~= s.subrange(g, i));
        assert(prev.update(prev.len() - 1, s.subrange(g, i)) =~= groups(s.take(g)).push(
            s.subrange(g, i),
        ));
    }
}

/// Builds the panel of one group, the records from `g` (inclusive) to
/// `i` (exclusive): local vertical scale, path geometry, and the
/// summary metadata taken from the group's last record.
fn build_panel(
    parsed_csv: &Vec<TelomericRepeatRecord>,
    g: usize,
    i: usize,
    height: u64,
    width: u64,
    height_per_plot: u64,
) -> (p: PlotData)
    requires
        g < i <= parsed_csv@.len(),
        MARGIN <= width,
        height_per_plot <= height,
    ensures
        p@ == panel_of(
            parsed_csv@.subrange(g as int, i as int),
            height as int,
            width as int,
            height_per_plot as int,
        ),
{
    let ghost group = parsed_csv@.subrange(g as int, i as int);
    let mut y_max: u64 = 0;
    let mut k: usize = g;
    while k < i
        invariant
            g <= k <= i <= parsed_csv@.len(),
            y_max as int == max_combined(parsed_csv@.subrange(g as int, k as int)),
        decreases i - k,
    {
        let c: u64 = (parsed_csv[k].forward_repeat_number as u64) + (
        parsed_csv[k].reverse_repeat_number as u64);
        if y_max <= c {
            y_max = c;
        }
        proof {
            assert(parsed_csv@.subrange(g as int, k + 1).drop_last() =~= parsed_csv@.subrange(
                g as int,
                k as int,
            ));
            assert(parsed_csv@.subrange(g as int, k + 1).last() == parsed_csv@[k as int]);
        }
        k = k + 1;
    }
    let mut path_vec: Vec<(u64, u64)> = Vec::new();
    let mut k: usize = g;
    while k < i
        invariant
            g <= k <= i <= parsed_csv@.len(),
            path_vec@.len() == k - g,
            forall|m: int|
                0 <= m < path_vec@.len() ==> (#[trigger] path_vec@[m]).0
                    == parsed_csv@[g + m].window && path_vec@[m].1 as int == combined(
                    parsed_csv@[g + m],
                ),
        decreases i - k,
    {
        let c: u64 = (parsed_csv[k].forward_repeat_number as u64) + (
        parsed_csv[k].reverse_repeat_number as u64);
        path_vec.push((parsed_csv[k].window, c));
        k = k + 1;
    }
    proof {
        lemma_max_combined_ge(group);
        assert(counts_of_pairs(path_vec@) =~= counts_of(group));
        assert(forall|m: int|
            0 <= m < path_vec@.len() ==> (#[trigger] path_vec@[m]).1 as int == counts_of(
                group,
            )[m]);
    }
    let path = make_path_element(path_vec, i - g, y_max, height, width, height_per_plot);
    let p = PlotData {
        id: parsed_csv[i - 1].ID.clone(),
        path,
        max: parsed_csv[i - 1].window,
        sequence: parsed_csv[i - 1].telomeric_repeat.clone(),
    };
    proof {
        assert(group.last() == parsed_csv@[i - 1]);
    }
    p
}

/// Walks the ordered record sequence once, closing a group at every
/// change of identifier and at the end of the input, and produces one
/// panel per group, in input order.  An empty input yields an empty
/// panel list.
pub fn generate_plot_data(
    parsed_csv: Vec<TelomericRepeatRecord>,
    height: u64,
    width: u64,
    height_per_plot: u64,
) -> (plot_data: Vec<PlotData>)
    requires
        MARGIN <= width,
        height_per_plot <= height,
    ensures
        plot_data@.len() == groups(parsed_csv@).len(),
        forall|j: int|
            0 <= j < plot_data@.len() ==> (#[trigger] plot_data@[j])@ == panel_of(
                groups(parsed_csv@)[j],
                height as int,
                width as int,
                height_per_plot as int,
            ),
{
    let mut plot_data: Vec<PlotData> = Vec::new();
    let len: usize = parsed_csv.len();
    if len == 0 {
        return plot_data;
    }
    let mut g: usize = 0;
    let mut i: usize = 1;
    while i < len
        invariant
            0 <= g < i <= len,
            len == parsed_csv@.len(),
            MARGIN <= width,
            height_per_plot <= height,
            g == 0 || parsed_csv@[g - 1].ID@ != parsed_csv@[g as int].ID@,
            forall|k: int|
                g <= k < i ==> (#[trigger] parsed_csv@[k]).ID@ == parsed_csv@[g as int].ID@,
            plot_data@.len() == groups(parsed_csv@.take(g as int)).len(),
            forall|j: int|
                0 <= j < plot_data@.len() ==> (#[trigger] plot_data@[j])@ == panel_of(
                    groups(parsed_csv@.take(g as int))[j],
                    height as int,
                    width as int,
                    height_per_plot as int,
                ),
        decreases len - i,
    {
        let differs: bool = !(parsed_csv[i].ID == parsed_csv[i - 1].ID);
        if differs {
            let p = build_panel(&parsed_csv, g, i, height, width, height_per_plot);
            proof {
                lemma_groups_extend_run(parsed_csv@, g as int, i as int);
            }
            plot_data.push(p);
            g = i;
        }
        i = i + 1;
    }
    let p = build_panel(&parsed_csv, g, len, height, width, height_per_plot);
    proof {
        lemma_groups_extend_run(parsed_csv@, g as int, len as int);
        assert(parsed_csv@.take(len as int) =~= parsed_csv@);
    }
    plot_data.push(p);
    plot_data
}

/// The mathematical images of a sequence of panels.
pub open spec fn panel_views(v: Seq<PlotData>) -> Seq<PanelModel> {
    v.map_values(|p: PlotData| p@)
}

/// Vertical translation applied to the panel with 0-based index `i`
/// among the drawn panels: each panel is shifted one panel height
/// upwards relative to the one before it.
pub open spec fn spec_neg_translate(i: int) -> Seq<char> {
    if i == 0 {
        "0"@
    } else {
        "-"@ + dec_digits(200 * i)
    }
}

/// The markup of one drawn panel: its text label followed by its path
/// element.
pub open spec fn spec_panel_markup(p: PanelModel, i: int) -> Seq<char> {
    "<text x='25' y='"@ + dec_digits(1 + i * 200 + 255) + "' class='chromosome_label'>"@ + p.id
        + "\n\u{2193}</text>"@ + "<path d='"@ + p.path
        + "' class='chromosome_line' stroke='black' fill='none' stroke-width='1' transform='translate(0,"@
        + spec_neg_translate(i) + ")'/>\n"@
}

/// The concatenated markup of all drawn panels, stacked top to bottom
/// in order.
pub open spec fn spec_all_paths(ps: Seq<PanelModel>) -> Seq<char>
    decreases ps.len(),
{
    if ps.len() == 0 {
        Seq::empty()
    } else {
        spec_all_paths(ps.drop_last()) + spec_panel_markup(ps.last(), ps.len() - 1)
    }
}

/// Emits the markup of every panel in the given list, in order: a text
/// label showing the chromosome identifier and the panel's polyline,
/// each panel translated one panel height above the previous one.
pub fn add_all_path_elements(plot_data: Vec<PlotData>) -> (all: String)
    ensures
        all@ == spec_all_paths(panel_views(plot_data@)),
{
    let mut all = String::new();
    let n: usize = plot_data.len();
    let mut i: usize = 0;
    proof {
        assert(panel_views(plot_data@).take(0) =~= Seq::<PanelModel>::empty());
    }
    while i < n
        invariant
            i <= n,
            n == plot_data@.len(),
            all@ == spec_all_paths(panel_views(plot_data@).take(i as int)),
        decreases n - i,
    {
        all.append("<text x='25' y='");
        let ty: u128 = (i as u128) * 200 + 256;
        push_decimal(&mut all, ty);
        all.append("' class='chromosome_label'>");
        all.append(plot_data[i].id.as_str());
        all.append("\n\u{2193}</text>");
        all.append("<path d='");
        all.append(plot_data[i].path.as_str());
        all.append(
            "' class='chromosome_line' stroke='black' fill='none' stroke-width='1' transform='translate(0,",
        );
        if i == 0 {
            all.append("0");
        } else {
            all.append("-");
            let tr: u128 = (i as u128) * 200;
            push_decimal(&mut all, tr);
        }
        all.append(")'/>\n");
        proof {
            assert(ty as int == 1 + (i as int) * 200 + 255);
            assert(panel_views(plot_data@).take(i + 1).drop_last() =~= panel_views(
                plot_data@,
            ).take(i as int));
            assert(panel_views(plot_data@).take(i + 1).last() == plot_data@[i as int]@);
            assert(all@ =~= spec_all_paths(panel_views(plot_data@).take(i + 1)));
        }
        i = i + 1;
    }
    proof {
        assert(panel_views(plot_data@).take(n as int) =~= panel_views(plot_data@));
    }
    all
}

/// The qualifying count never exceeds the number of records inspected.
pub proof fn lemma_count_qualifying_bounds(s: Seq<TelomericRepeatRecord>, n: int, cutoff: int)
    ensures
        0 <= count_qualifying_upto(s, n, cutoff),
        count_qualifying_upto(s, n, cutoff) <= (if n >= 0 {
            n
        } else {
            0
        }),
    decreases n,
{
    if n > 0 {
        lemma_count_qualifying_bounds(s, n - 1, cutoff);
    }
}

/// Height of the canvas: one panel height per qualifying group, plus
/// one extra panel height and the margin.
pub open spec fn svg_height(s: Seq<TelomericRepeatRecord>, cutoff: int) -> int {
    200 * count_qualifying(s, cutoff) + 200 + MARGIN
}

/// The panels of every group of the record sequence, in input order.
pub open spec fn panels_of(
    s: Seq<TelomericRepeatRecord>,
    height: int,
    width: int,
    height_per_plot: int,
) -> Seq<PanelModel> {
    groups(s).map_values(
        (|grp: Seq<TelomericRepeatRecord>| panel_of(grp, height, width, height_per_plot)),
    )
}

/// The panels whose boundary window position exceeds the cutoff, in
/// order: exactly those drawn in the final document.
pub open spec fn filter_qualifying(ps: Seq<PanelModel>, cutoff: int) -> Seq<PanelModel>
    decreases ps.len(),
{
    if ps.len() == 0 {
        Seq::empty()
    } else {
        let rest = filter_qualifying(ps.drop_last(), cutoff);
        if ps.last().max > cutoff {
            rest.push(ps.last())
        } else {
            rest
        }
    }
}

/// The complete SVG document for a record sequence and a cutoff: the
/// fixed header with the derived canvas height, the markup of the
/// qualifying panels, and the closing tag.  An empty or wholly
/// filtered input yields a well-formed empty-canvas document.
pub open spec fn spec_svg(s: Seq<TelomericRepeatRecord>, cutoff: int) -> Seq<char> {
    "<?xml version='1.0' encoding='UTF-8'  standalone='no' ?> <!DOCTYPE svg PUBLIC '-//W3C//DTD SVG 1.0//EN' 'http://www.w3.org/TR/2001/REC-SVG-20010904/DTD/svg10.dtd'> <svg version='1.0' width='1000' height='"@
        + dec_digits(svg_height(s, cutoff))
        + "' xmlns='http://www.w3.org/2000/svg' xmlns:xlink='http://www.w3.org/1999/xlink'> <style type='text/css'> .chromosome_line:hover { stroke-opacity: 1.0; stroke: crimson; stroke-width: 3; } .chromosome_text { font: 15px sans-serif; }\n                 </style> "@
        + spec_all_paths(filter_qualifying(panels_of(s, svg_height(s, cutoff), 1000, 200), cutoff))
        + " </svg>"@
}

/// Runs the whole pipeline: counts the qualifying groups, sizes the
/// canvas from that count, generates one panel per group, filters the
/// panels by the cutoff, and assembles the final document.
pub fn plot(parsed_csv: Vec<TelomericRepeatRecord>, chromosome_cutoff: u64) -> (svg: String)
    requires
        parsed_csv@.len() <= 0xFFFF_FFFF,
    ensures
        svg@ == spec_svg(parsed_csv@, chromosome_cutoff as int),
{
    let ghost s = parsed_csv@;
    let width: u64 = 1000;
    let height_per_plot: u64 = 200;
    let n_q: usize = chromosome_number(&parsed_csv, chromosome_cutoff);
    proof {
        lemma_count_qualifying_bounds(s, s.len() as int, chromosome_cutoff as int);
    }
    let height: u64 = height_per_plot * (n_q as u64) + height_per_plot + MARGIN;
    let plot_data = generate_plot_data(parsed_csv, height, width, height_per_plot);
    proof {
        assert(panel_views(plot_data@) =~= panels_of(
            s,
            height as int,
            width as int,
            height_per_plot as int,
        ));
    }
    let mut filtered: Vec<PlotData> = Vec::new();
    let n: usize = plot_data.len();
    let mut j: usize = 0;
    proof {
        assert(panel_views(plot_data@).take(0) =~= Seq::<PanelModel>::empty());
        assert(panel_views(filtered@) =~= Seq::<PanelModel>::empty());
    }
    while j < n
        invariant
            j <= n,
            n == plot_data@.len(),
            panel_views(filtered@) == filter_qualifying(
                panel_views(plot_data@).take(j as int),
                chromosome_cutoff as int,
            ),
        decreases n - j,
    {
        if plot_data[j].max > chromosome_cutoff {
            filtered.push(plot_data[j].clone());
        }
        proof {
            assert(panel_views(plot_data@).take(j + 1).drop_last() =~= panel_views(
                plot_data@,
            ).take(j as int));
            assert(panel_views(plot_data@).take(j + 1).last() == plot_data@[j as int]@);
            assert(panel_views(filtered@) =~= filter_qualifying(
                panel_views(plot_data@).take(j + 1),
                chromosome_cutoff as int,
            ));
        }
        j = j + 1;
    }
    proof {
        assert(panel_views(plot_data@).take(n as int) =~= panel_views(plot_data@));
    }
    let body = add_all_path_elements(filtered);
    let mut svg = String::new();
    svg.append(
        "<?xml version='1.0' encoding='UTF-8'  standalone='no' ?> <!DOCTYPE svg PUBLIC '-//W3C//DTD SVG 1.0//EN' 'http://www.w3.org/TR/2001/REC-SVG-20010904/DTD/svg10.dtd'> <svg version='1.0' width='1000' height='",
    );
    push_decimal(&mut svg, height as u128);
    svg.append(
        "' xmlns='http://www.w3.org/2000/svg' xmlns:xlink='http://www.w3.org/1999/xlink'> <style type='text/css'> .chromosome_line:hover { stroke-opacity: 1.0; stroke: crimson; stroke-width: 3; } .chromosome_text { font: 15px sans-serif; }\n                 </style> ",
    );
    svg.append(body.as_str());
    svg.append(" </svg>");
    proof {
        assert(svg@ =~= spec_svg(s, chromosome_cutoff as int));
    }
    svg
}

} // verus!
