//! General properties of the pipeline, each stated over the spec-level
//! model that the executable functions are proved against.

use vstd::arithmetic::div_mod::{lemma_div_by_multiple, lemma_div_is_ordered, lemma_div_pos_is_pos};
use vstd::prelude::*;

use crate::decimal::{dec_digits, is_digit, lemma_dec_digits_are_digits};
use crate::plot::{
    combined, count_qualifying, count_qualifying_upto, counts_of, filter_qualifying, groups,
    is_group_close, lemma_groups_last, lemma_max_combined_ge, max_combined, panel_of, panels_of,
    path_string, spec_point, spec_scale_y, spec_svg, spec_y_coord, y_divisor, PanelModel,
    TelomericRepeatRecord,
};

verus! {

/// Index `i` starts a maximal run of equal identifiers: it is the
/// first record or its identifier differs from the one before it.
pub open spec fn is_run_start(s: Seq<TelomericRepeatRecord>, i: int) -> bool {
    0 <= i < s.len() && (i == 0 || s[i - 1].ID@ != s[i].ID@)
}

/// Number of run starts among the indices below `n`.
pub open spec fn count_run_starts_upto(s: Seq<TelomericRepeatRecord>, n: int) -> int
    decreases n,
{
    if n <= 0 {
        0
    } else {
        count_run_starts_upto(s, n - 1) + if is_run_start(s, n - 1) {
            1int
        } else {
            0int
        }
    }
}

/// Number of maximal runs of equal identifiers in the input.
pub open spec fn count_run_starts(s: Seq<TelomericRepeatRecord>) -> int {
    count_run_starts_upto(s, s.len() as int)
}

proof fn lemma_run_starts_prefix(
    s: Seq<TelomericRepeatRecord>,
    t: Seq<TelomericRepeatRecord>,
    n: int,
)
    requires
        s.len() > 0,
        t == s.drop_last(),
        0 <= n <= t.len(),
    ensures
        count_run_starts_upto(s, n) == count_run_starts_upto(t, n),
    decreases n,
{
    if n > 0 {
        lemma_run_starts_prefix(s, t, n - 1);
        assert(is_run_start(s, n - 1) == is_run_start(t, n - 1));
    }
}

/// The number of groups equals the number of maximal runs of equal
/// identifiers: grouping is determined solely by adjacency, no matter
/// whether an identifier reappears elsewhere in the input.
pub proof fn lemma_group_count_is_run_count(s: Seq<TelomericRepeatRecord>)
    ensures
        groups(s).len() == count_run_starts(s),
    decreases s.len(),
{
    if s.len() > 0 {
        let t = s.drop_last();
        lemma_group_count_is_run_count(t);
        lemma_run_starts_prefix(s, t, t.len() as int);
        if t.len() > 0 {
            lemma_groups_last(t);
            assert(groups(t).last().last() == t.last());
            assert(t.last() == s[s.len() - 2]);
        }
        assert(count_run_starts(s) == count_run_starts_upto(s, s.len() - 1) + if is_run_start(
            s,
            s.len() - 1,
        ) {
            1int
        } else {
            0int
        });
    }
}

/// A scaled count stays within one panel height.
pub proof fn lemma_scale_y_bounds(c: int, height_per_plot: int, y_max: int)
    requires
        0 <= c,
        c <= y_max || y_max == 0 && c == 0,
        0 <= height_per_plot,
    ensures
        0 <= spec_scale_y(c, height_per_plot, y_max) <= height_per_plot,
{
    let d = y_divisor(y_max);
    assert(0 <= height_per_plot * c && height_per_plot * c <= d * height_per_plot)
        by (nonlinear_arith)
        requires
            0 <= height_per_plot,
            0 <= c,
            c <= d,
    ;
    lemma_div_pos_is_pos(height_per_plot * c, d);
    lemma_div_is_ordered(height_per_plot * c, d * height_per_plot, d);
    lemma_div_by_multiple(height_per_plot, d);
}

/// Within one group, the vertical scale is the group's own greatest
/// combined count, and every plotted vertical coordinate lies within
/// the panel: between `height - height_per_plot` and `height`.
pub proof fn lemma_y_coords_within_panel(
    group: Seq<TelomericRepeatRecord>,
    height: int,
    height_per_plot: int,
)
    requires
        0 <= height_per_plot <= height,
    ensures
        forall|k: int|
            0 <= k < group.len() ==> height - height_per_plot <= #[trigger] spec_y_coord(
                counts_of(group)[k],
                height,
                height_per_plot,
                max_combined(group),
            ) <= height,
{
    lemma_max_combined_ge(group);
    assert forall|k: int|
        0 <= k < group.len() implies height - height_per_plot <= #[trigger] spec_y_coord(
        counts_of(group)[k],
        height,
        height_per_plot,
        max_combined(group),
    ) <= height by {
        assert(counts_of(group)[k] == combined(group[k]));
        lemma_scale_y_bounds(combined(group[k]), height_per_plot, max_combined(group));
    }
}

/// Number of occurrences of a character in a character sequence.
pub open spec fn count_char(s: Seq<char>, c: char) -> int
    decreases s.len(),
{
    if s.len() == 0 {
        0
    } else {
        count_char(s.drop_last(), c) + if s.last() == c {
            1int
        } else {
            0int
        }
    }
}

proof fn lemma_count_char_concat(a: Seq<char>, b: Seq<char>, c: char)
    ensures
        count_char(a + b, c) == count_char(a, c) + count_char(b, c),
    decreases b.len(),
{
    if b.len() == 0 {
        assert(a + b =~= a);
    } else {
        lemma_count_char_concat(a, b.drop_last(), c);
        assert((a + b).drop_last() =~= a + b.drop_last());
        assert((a + b).last() == b.last());
    }
}

proof fn lemma_count_char_digits_only(s: Seq<char>, c: char)
    requires
        forall|i: int| 0 <= i < s.len() ==> is_digit(#[trigger] s[i]),
        !is_digit(c),
    ensures
        count_char(s, c) == 0,
    decreases s.len(),
{
    if s.len() > 0 {
        assert(forall|i: int|
            0 <= i < s.drop_last().len() ==> is_digit(#[trigger] s.drop_last()[i]));
        lemma_count_char_digits_only(s.drop_last(), c);
    }
}

/// A group of size one produces a path with exactly one move-to
/// command and no line-to command: a single point, no segments.
pub proof fn lemma_single_point_path(
    counts: Seq<int>,
    x_max: int,
    y_max: int,
    height: int,
    width: int,
    height_per_plot: int,
)
    requires
        counts.len() == 1,
    ensures
        count_char(path_string(counts, x_max, y_max, height, width, height_per_plot), 'M') == 1,
        count_char(path_string(counts, x_max, y_max, height, width, height_per_plot), 'L') == 0,
{
    let p = spec_point(0, counts[0], x_max, y_max, height, width, height_per_plot);
    let xs = dec_digits(crate::plot::spec_x_coord(0, width, x_max));
    let ys = dec_digits(spec_y_coord(counts[0], height, height_per_plot, y_max));
    assert(counts.last() == counts[0]);
    assert(path_string(counts, x_max, y_max, height, width, height_per_plot) == seq!['M'] + p);
    lemma_dec_digits_are_digits(crate::plot::spec_x_coord(0, width, x_max));
    lemma_dec_digits_are_digits(spec_y_coord(counts[0], height, height_per_plot, y_max));
    lemma_count_char_digits_only(xs, 'M');
    lemma_count_char_digits_only(xs, 'L');
    lemma_count_char_digits_only(ys, 'M');
    lemma_count_char_digits_only(ys, 'L');
    lemma_count_char_concat(xs, seq![','], 'M');
    lemma_count_char_concat(xs + seq![','], ys, 'M');
    lemma_count_char_concat(seq!['M'], p, 'M');
    lemma_count_char_concat(xs, seq![','], 'L');
    lemma_count_char_concat(xs + seq![','], ys, 'L');
    lemma_count_char_concat(seq!['M'], p, 'L');
    assert(seq![','].drop_last() =~= Seq::<char>::empty());
    assert(seq!['M'].drop_last() =~= Seq::<char>::empty());
    assert(count_char(Seq::<char>::empty(), 'M') == 0);
    assert(count_char(Seq::<char>::empty(), 'L') == 0);
    assert(count_char(seq![','], 'M') == 0);
    assert(count_char(seq![','], 'L') == 0);
    assert(count_char(seq!['M'], 'M') == 1);
    assert(count_char(seq!['M'], 'L') == 0);
}

proof fn lemma_count_qualifying_prefix(
    s: Seq<TelomericRepeatRecord>,
    t: Seq<TelomericRepeatRecord>,
    n: int,
    cutoff: int,
)
    requires
        s.len() >= 2,
        t == s.drop_last(),
        0 <= n <= s.len() - 2,
    ensures
        count_qualifying_upto(s, n, cutoff) == count_qualifying_upto(t, n, cutoff),
    decreases n,
{
    if n > 0 {
        lemma_count_qualifying_prefix(s, t, n - 1, cutoff);
        assert(is_group_close(s, n - 1) == is_group_close(t, n - 1));
    }
}

/// The qualifying count used for canvas sizing agrees with the number
/// of panels that survive the cutoff filter, for every input and every
/// canvas geometry: the two passes share one grouping rule.
pub proof fn lemma_qualifying_counts_agree(
    s: Seq<TelomericRepeatRecord>,
    cutoff: int,
    height: int,
    width: int,
    height_per_plot: int,
)
    ensures
        count_qualifying(s, cutoff) == filter_qualifying(
            panels_of(s, height, width, height_per_plot),
            cutoff,
        ).len(),
    decreases s.len(),
{
    let ps = panels_of(s, height, width, height_per_plot);
    if s.len() == 0 {
        assert(ps =~= Seq::<PanelModel>::empty());
    } else {
        let t = s.drop_last();
        let r = s.last();
        let pt = panels_of(t, height, width, height_per_plot);
        lemma_qualifying_counts_agree(t, cutoff, height, width, height_per_plot);
        if s.len() == 1 {
            assert(groups(s) == Seq::<Seq<TelomericRepeatRecord>>::empty().push(seq![r]));
            assert(ps =~= Seq::<PanelModel>::empty().push(
                panel_of(seq![r], height, width, height_per_plot),
            ));
            assert(panel_of(seq![r], height, width, height_per_plot).max == r.window as int);
            assert(ps.drop_last() =~= Seq::<PanelModel>::empty());
            assert(is_group_close(s, 0));
            assert(count_qualifying_upto(s, 0, cutoff) == 0);
            assert(count_qualifying(s, cutoff) == if r.window > cutoff {
                1int
            } else {
                0int
            });
            assert(filter_qualifying(Seq::<PanelModel>::empty(), cutoff) =~= Seq::<
                PanelModel,
            >::empty());
            assert(filter_qualifying(ps, cutoff).len() == if r.window > cutoff {
                1int
            } else {
                0int
            });
        } else {
            lemma_groups_last(t);
            assert(groups(t).last().last() == t.last());
            assert(t.last() == s[s.len() - 2]);
            lemma_count_qualifying_prefix(s, t, s.len() - 2, cutoff);
            let w2 = s[s.len() - 2].window as int;
            // the count over s: indices up to len-2 agree with t, index len-2
            // closes only on an identifier change, index len-1 always closes
            assert(count_qualifying(s, cutoff) == count_qualifying_upto(s, s.len() - 1, cutoff)
                + if r.window > cutoff {
                1int
            } else {
                0int
            });
            assert(count_qualifying_upto(s, s.len() - 1, cutoff) == count_qualifying_upto(
                s,
                s.len() - 2,
                cutoff,
            ) + if is_group_close(s, s.len() - 2) && w2 > cutoff {
                1int
            } else {
                0int
            });
            assert(count_qualifying(t, cutoff) == count_qualifying_upto(t, s.len() - 2, cutoff)
                + if w2 > cutoff {
                1int
            } else {
                0int
            });
            if t.last().ID@ != r.ID@ {
                // the last record opens a group of its own
                assert(groups(s) == groups(t).push(seq![r]));
                assert(ps =~= pt.push(panel_of(seq![r], height, width, height_per_plot)));
                assert(ps.drop_last() =~= pt);
                assert(panel_of(seq![r], height, width, height_per_plot).max == r.window as int);
                assert(is_group_close(s, s.len() - 2));
                assert(ps.last() == panel_of(seq![r], height, width, height_per_plot));
                assert(filter_qualifying(ps, cutoff).len() == filter_qualifying(pt, cutoff).len()
                    + if r.window > cutoff {
                    1int
                } else {
                    0int
                });
                assert(count_qualifying(s, cutoff) == count_qualifying(t, cutoff)
                    + if r.window > cutoff {
                    1int
                } else {
                    0int
                });
            } else {
                // the last record extends the last group, whose boundary
                // record it becomes
                let grp = groups(t).last().push(r);
                assert(groups(s) == groups(t).update(groups(t).len() - 1, grp));
                assert(ps =~= pt.update(
                    pt.len() - 1,
                    panel_of(grp, height, width, height_per_plot),
                ));
                assert(pt.len() > 0);
                assert(ps.drop_last() =~= pt.drop_last());
                assert(ps.last() == panel_of(grp, height, width, height_per_plot));
                assert(grp.last() == r);
                assert(ps.last().max == r.window as int);
                assert(pt.last() == panel_of(
                    groups(t).last(),
                    height,
                    width,
                    height_per_plot,
                ));
                assert(pt.last().max == w2);
                assert(!is_group_close(s, s.len() - 2));
                assert(filter_qualifying(ps, cutoff).len() == filter_qualifying(
                    ps.drop_last(),
                    cutoff,
                ).len() + if r.window > cutoff {
                    1int
                } else {
                    0int
                });
                assert(filter_qualifying(pt, cutoff).len() == filter_qualifying(
                    pt.drop_last(),
                    cutoff,
                ).len() + if w2 > cutoff {
                    1int
                } else {
                    0int
                });
            }
        }
    }
}

/// Re-running the pipeline on identical input and configuration
/// produces identical output: the document is a function of the record
/// sequence and the cutoff alone, with no dependence on randomness,
/// time, or environment.
pub proof fn lemma_plot_deterministic(
    s1: Seq<TelomericRepeatRecord>,
    s2: Seq<TelomericRepeatRecord>,
    cutoff1: int,
    cutoff2: int,
)
    requires
        s1 == s2,
        cutoff1 == cutoff2,
    ensures
        spec_svg(s1, cutoff1) == spec_svg(s2, cutoff2),
{
}

} // verus!
