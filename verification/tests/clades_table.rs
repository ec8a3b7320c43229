use tidk_plot::clades::{clade_is_known, return_telomere_sequence};

#[test]
fn known_clades_are_recognised() {
    assert!(clade_is_known("Accipitriformes"));
    assert!(clade_is_known("Anura"));
    assert!(clade_is_known("Venerida"));
    assert!(!clade_is_known("Dinosauria"));
    assert!(!clade_is_known(""));
    // matching is exact, not case-insensitive
    assert!(!clade_is_known("anura"));
}

#[test]
fn single_motif_clade_lookup() {
    let entry = return_telomere_sequence("Anura");
    assert_eq!(entry.clade, "Anura");
    assert_eq!(entry.length, 1);
    assert_eq!(entry.seq.get(0), Some("AACCCT"));
    assert_eq!(entry.seq.get(1), None);
}

#[test]
fn multi_motif_clade_lookup() {
    let entry = return_telomere_sequence("Trichoptera");
    assert_eq!(entry.clade, "Trichoptera");
    assert_eq!(entry.length, 2);
    assert_eq!(entry.seq.get(0), Some("AACCT"));
    assert_eq!(entry.seq.get(1), Some("AATGACAGCG"));
    assert_eq!(entry.seq.get(2), None);
}

#[test]
fn four_motif_clade_lookup() {
    let entry = return_telomere_sequence("Ranunculales");
    assert_eq!(entry.clade, "Ranunculales");
    assert_eq!(entry.length, 4);
    assert_eq!(entry.seq.get(0), Some("AAACCCT"));
    assert_eq!(entry.seq.get(3), Some("AAACCG"));
    assert_eq!(entry.seq.get(4), None);
}

#[test]
fn primate_motif_differs_from_bird_motif() {
    let primates = return_telomere_sequence("Primates");
    let birds = return_telomere_sequence("Accipitriformes");
    assert_eq!(primates.seq.get(0), Some("AATGG"));
    assert_eq!(birds.seq.get(0), Some("AACCCT"));
}
