use tidk_plot::plot::{
    add_all_path_elements, chromosome_number, generate_plot_data, make_path_element, plot, scale_y,
    TelomericRepeatRecord,
};

fn record(id: &str, window: u64, fwd: u32, rev: u32, motif: &str) -> TelomericRepeatRecord {
    TelomericRepeatRecord {
        ID: String::from(id),
        window,
        forward_repeat_number: fwd,
        reverse_repeat_number: rev,
        telomeric_repeat: String::from(motif),
    }
}

fn sample_rows() -> Vec<TelomericRepeatRecord> {
    vec![
        record("chr1", 0, 2, 1, "AACCCT"),
        record("chr1", 10, 5, 4, "AACCCT"),
        record("chr2", 0, 0, 0, "AACCCT"),
        record("chr2", 20, 1, 0, "AACCCT"),
    ]
}

fn count_occurrences(haystack: &str, needle: &str) -> usize {
    haystack.matches(needle).count()
}

#[test]
fn grouping_follows_adjacency_only() {
    // an identifier that reappears non-contiguously yields separate groups
    let rows = vec![
        record("chr1", 0, 1, 0, "AACCCT"),
        record("chr2", 0, 1, 0, "AACCCT"),
        record("chr1", 5, 1, 0, "AACCCT"),
    ];
    let panels = generate_plot_data(rows, 640, 1000, 200);
    assert_eq!(panels.len(), 3);
    assert_eq!(panels[0].id, "chr1");
    assert_eq!(panels[1].id, "chr2");
    assert_eq!(panels[2].id, "chr1");
}

#[test]
fn single_record_input_is_one_group() {
    let rows = vec![record("chrX", 7, 3, 2, "AACCT")];
    let panels = generate_plot_data(rows, 440, 1000, 200);
    assert_eq!(panels.len(), 1);
    assert_eq!(panels[0].max, 7);
    assert_eq!(panels[0].sequence, "AACCT");
}

#[test]
fn final_single_record_group_is_flushed() {
    // the last record forms a group of exactly one record
    let rows = vec![
        record("chr1", 0, 1, 0, "AACCCT"),
        record("chr1", 10, 1, 0, "AACCCT"),
        record("chr2", 0, 4, 4, "AACCCT"),
    ];
    let panels = generate_plot_data(rows, 640, 1000, 200);
    assert_eq!(panels.len(), 2);
    assert_eq!(panels[1].id, "chr2");
    assert_eq!(panels[1].max, 0);
}

#[test]
fn scale_y_rescales_into_panel_height() {
    assert_eq!(scale_y(3, 200, 9), 66);
    assert_eq!(scale_y(9, 200, 9), 200);
    assert_eq!(scale_y(0, 200, 9), 0);
    // a group with no repeats at all must not raise a division error
    assert_eq!(scale_y(0, 200, 0), 0);
}

#[test]
fn single_point_path_has_one_move_to_and_no_line_to() {
    let path = make_path_element(vec![(7, 5)], 1, 5, 440, 1000, 200);
    assert_eq!(path, "M980,240");
    assert_eq!(count_occurrences(&path, "M"), 1);
    assert_eq!(count_occurrences(&path, "L"), 0);
}

#[test]
fn path_points_are_evenly_spaced_and_scaled() {
    // two windows, combined counts 3 then 9, so the local maximum is 9
    let path = make_path_element(vec![(0, 3), (10, 9)], 2, 9, 640, 1000, 200);
    assert_eq!(path, "M500,574L980,440");
}

#[test]
fn all_zero_counts_draw_a_flat_line() {
    let path = make_path_element(vec![(0, 0), (10, 0), (20, 0)], 3, 0, 440, 1000, 200);
    assert_eq!(path, "M340,440L660,440L980,440");
}

#[test]
fn qualifying_count_includes_the_final_group() {
    let rows = sample_rows();
    assert_eq!(chromosome_number(&rows, 5), 2);
    assert_eq!(chromosome_number(&rows, 15), 1);
    assert_eq!(chromosome_number(&rows, 25), 0);
}

#[test]
fn qualifying_count_of_empty_input_is_zero() {
    let rows: Vec<TelomericRepeatRecord> = Vec::new();
    assert_eq!(chromosome_number(&rows, 5), 0);
}

#[test]
fn two_groups_both_qualify_at_low_cutoff() {
    // both chromosomes lie beyond cutoff 5: two panels are drawn
    let svg = plot(sample_rows(), 5);
    assert_eq!(count_occurrences(&svg, "<path "), 2);
    assert!(svg.contains("height='640'"));
    assert!(svg.contains("chr1"));
    assert!(svg.contains("chr2"));
    // chr1: two points, local maximum 9; chr2: two points, local maximum 1
    assert!(svg.contains("M500,574L980,440"));
    assert!(svg.contains("M500,640L980,440"));
    assert!(svg.contains("y='256'"));
    assert!(svg.contains("y='456'"));
    assert!(svg.contains("translate(0,0)"));
    assert!(svg.contains("translate(0,-200)"));
}

#[test]
fn only_the_second_group_qualifies_at_high_cutoff() {
    // cutoff 15: chr1's boundary window 10 is filtered out, chr2's 20 stays
    let svg = plot(sample_rows(), 15);
    assert_eq!(count_occurrences(&svg, "<path "), 1);
    assert!(svg.contains("height='440'"));
    assert!(svg.contains("chr2"));
    assert!(!svg.contains("chr1"));
    assert_eq!(count_occurrences(&svg, "chromosome_label"), 1);
}

#[test]
fn empty_input_yields_a_well_formed_empty_canvas() {
    let svg = plot(Vec::new(), 5);
    let expected = format!(
        "{}{}{}",
        "<?xml version='1.0' encoding='UTF-8'  standalone='no' ?> <!DOCTYPE svg PUBLIC \
         '-//W3C//DTD SVG 1.0//EN' 'http://www.w3.org/TR/2001/REC-SVG-20010904/DTD/svg10.dtd'> \
         <svg version='1.0' width='1000' height='240' xmlns='http://www.w3.org/2000/svg' \
         xmlns:xlink='http://www.w3.org/1999/xlink'> <style type='text/css'> \
         .chromosome_line:hover { stroke-opacity: 1.0; stroke: crimson; stroke-width: 3; } \
         .chromosome_text { font: 15px sans-serif; }\n",
        "                 </style> ",
        " </svg>"
    );
    assert_eq!(svg, expected);
}

#[test]
fn rerunning_the_pipeline_is_byte_identical() {
    let first = plot(sample_rows(), 5);
    let second = plot(sample_rows(), 5);
    assert_eq!(first, second);
}

#[test]
fn cutoff_comparison_is_strict() {
    // a boundary window equal to the cutoff is excluded
    let svg = plot(sample_rows(), 20);
    assert_eq!(count_occurrences(&svg, "<path "), 0);
    assert!(svg.contains("height='240'"));
}

#[test]
fn drawn_panels_match_the_qualifying_count() {
    let rows = vec![
        record("chr1", 30, 1, 0, "AACCCT"),
        record("chr2", 15, 2, 2, "AACCCT"),
        record("chr3", 40, 0, 1, "AACCCT"),
        record("chr4", 5, 3, 0, "AACCCT"),
    ];
    for cutoff in [0u64, 10, 20, 35, 50] {
        let expected = chromosome_number(&rows, cutoff);
        let svg = plot(rows.iter().map(clone_record).collect(), cutoff);
        assert_eq!(count_occurrences(&svg, "<path "), expected);
    }
}

fn clone_record(r: &TelomericRepeatRecord) -> TelomericRepeatRecord {
    record(
        &r.ID,
        r.window,
        r.forward_repeat_number,
        r.reverse_repeat_number,
        &r.telomeric_repeat,
    )
}

#[test]
fn boundary_metadata_comes_from_the_last_record_only() {
    // window values need not be monotonic; the last record still wins
    let rows = vec![
        record("chr1", 50, 1, 0, "AACCCT"),
        record("chr1", 10, 9, 9, "AACCT"),
    ];
    let panels = generate_plot_data(rows, 440, 1000, 200);
    assert_eq!(panels.len(), 1);
    assert_eq!(panels[0].max, 10);
    assert_eq!(panels[0].sequence, "AACCT");
}

#[test]
fn panel_markup_lists_labels_and_paths_in_order() {
    let rows = sample_rows();
    let panels = generate_plot_data(rows, 640, 1000, 200);
    let markup = add_all_path_elements(panels);
    let chr1_at = markup.find("chr1").unwrap();
    let chr2_at = markup.find("chr2").unwrap();
    assert!(chr1_at < chr2_at);
    assert_eq!(count_occurrences(&markup, "<text "), 2);
    assert_eq!(count_occurrences(&markup, "<path "), 2);
}
