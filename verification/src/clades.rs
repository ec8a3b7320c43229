//! The static clade-to-telomeric-repeat lookup table: an immutable
//! mapping from a clade name to the ordered list of repeat motifs
//! recorded for it.  Lookups of unrecognised names fail explicitly;
//! callers test a name with [`clade_is_known`] before looking it up.

use vstd::prelude::*;

verus! {

/// The ordered telomeric repeat units recorded for one clade.
pub struct MotifSeq(pub Vec<&'static str>);

impl MotifSeq {
    /// The motif at `index`, if the list is long enough.
    pub fn get(&self, index: usize) -> (r: Option<&'static str>)
        ensures
            r is Some <==> index < self.0@.len(),
            r is Some ==> r.unwrap() == self.0@[index as int],
    {
        if index < self.0.len() {
            Some(self.0[index])
        } else {
            None
        }
    }
}

/// One clade's entry: its name, its repeat units, and their number.
pub struct TelomereSeq {
    pub clade: &'static str,
    pub seq: MotifSeq,
    pub length: usize,
}

/// The views of a list of motifs, in order.
pub open spec fn motif_views(v: Seq<&'static str>) -> Seq<Seq<char>> {
    v.map_values(|m: &'static str| m@)
}

fn clade_is(c: &String, lit: &'static str) -> (b: bool)
    ensures
        b == (c@ == lit@),
{
    let l = String::from_str(lit);
    *c == l
}


/// The domain of the lookup table: the clade names it has an entry
/// for.
pub open spec fn is_known_clade(c: Seq<char>) -> bool {
    c == "Accipitriformes"@
        || c == "Actiniaria"@
        || c == "Agaricales"@
        || c == "Alismatales"@
        || c == "Amphilepidida"@
        || c == "Anura"@
        || c == "Apiales"@
        || c == "Aplousobranchia"@
        || c == "Aquifoliales"@
        || c == "Araneae"@
        || c == "Artiodactyla"@
        || c == "Asparagales"@
        || c == "Asterales"@
        || c == "Atheriniformes"@
        || c == "Balanomorpha"@
        || c == "Boraginales"@
        || c == "Brassicales"@
        || c == "Buxales"@
        || c == "Camarodonta"@
        || c == "Caprimulgiformes"@
        || c == "Carcharhiniformes"@
        || c == "Cardiida"@
        || c == "Carnivora"@
        || c == "Caryophyllales"@
        || c == "Celastrales"@
        || c == "Chaetocerotales"@
        || c == "Cheilostomatida"@
        || c == "Chiroptera"@
        || c == "Chitonida"@
        || c == "Chlamydomonadales"@
        || c == "Coleoptera"@
        || c == "Comatulida"@
        || c == "Crassiclitellata"@
        || c == "Cucurbitales"@
        || c == "Cypriniformes"@
        || c == "Decapoda"@
        || c == "Dioctophymatida"@
        || c == "Dipsacales"@
        || c == "Ericales"@
        || c == "Eucoccidiorida"@
        || c == "Euglenales"@
        || c == "Eulipotyphla"@
        || c == "Fabales"@
        || c == "Fagales"@
        || c == "Forcipulatida"@
        || c == "Fucales"@
        || c == "Gentianales"@
        || c == "Geophilomorpha"@
        || c == "Geraniales"@
        || c == "Gigartinales"@
        || c == "Glomerida"@
        || c == "Hemiptera"@
        || c == "Heteronemertea"@
        || c == "Hirudinida"@
        || c == "Hymenoptera"@
        || c == "Hypnales"@
        || c == "Isochrysidales"@
        || c == "Lamiales"@
        || c == "Lepidoptera"@
        || c == "Liliales"@
        || c == "Lithobiomorpha"@
        || c == "Littorinimorpha"@
        || c == "Lunulariales"@
        || c == "Lycopodiales"@
        || c == "Malpighiales"@
        || c == "Malvales"@
        || c == "Megaloptera"@
        || c == "Myrtales"@
        || c == "Neuroptera"@
        || c == "Nudibranchia"@
        || c == "Odonata"@
        || c == "Opiliones"@
        || c == "Orthoptera"@
        || c == "Ostreida"@
        || c == "Palmariales"@
        || c == "Pectinida"@
        || c == "Pelecaniformes"@
        || c == "Perciformes"@
        || c == "Phlebobranchia"@
        || c == "Phyllodocida"@
        || c == "Plecoptera"@
        || c == "Poales"@
        || c == "Polytrichales"@
        || c == "Primates"@
        || c == "Procellariiformes"@
        || c == "Pyrenomonadales"@
        || c == "Ranunculales"@
        || c == "Rhabditida"@
        || c == "Rodentia"@
        || c == "Rosales"@
        || c == "Sabellida"@
        || c == "Salmoniformes"@
        || c == "Sapindales"@
        || c == "Scombriformes"@
        || c == "Scorpiones"@
        || c == "Solanales"@
        || c == "Sphagnales"@
        || c == "Stolidobranchia"@
        || c == "Trichoptera"@
        || c == "Trochida"@
        || c == "Venerida"@
}


/// The table itself, as a mathematical mapping: the ordered views of
/// the repeat motifs recorded for each known clade name.
pub open spec fn telomere_motifs(c: Seq<char>) -> Seq<Seq<char>> {
    if c == "Accipitriformes"@ {
        seq!["AACCCT"@]
    } else if c == "Actiniaria"@ {
        seq!["AACCCT"@]
    } else if c == "Agaricales"@ {
        seq!["AAACCCT"@]
    } else if c == "Alismatales"@ {
        seq!["AAACCCT"@]
    } else if c == "Amphilepidida"@ {
        seq!["AACCCT"@]
    } else if c == "Anura"@ {
        seq!["AACCCT"@]
    } else if c == "Apiales"@ {
        seq!["AAACCCT"@]
    } else if c == "Aplousobranchia"@ {
        seq!["AACCCT"@]
    } else if c == "Aquifoliales"@ {
        seq!["AAACCCT"@]
    } else if c == "Araneae"@ {
        seq!["AATAT"@, "ACTAT"@, "AACAT"@, "AAAGC"@, "ACATG"@, "AACTTGT"@]
    } else if c == "Artiodactyla"@ {
        seq!["AACCCT"@]
    } else if c == "Asparagales"@ {
        seq!["AACCGAGCCCAT"@, "AACCCT"@]
    } else if c == "Asterales"@ {
        seq!["AAACCCT"@]
    } else if c == "Atheriniformes"@ {
        seq!["ACCAG"@]
    } else if c == "Balanomorpha"@ {
        seq!["AACCT"@]
    } else if c == "Boraginales"@ {
        seq!["AAACCCT"@]
    } else if c == "Brassicales"@ {
        seq!["AAACCCT"@]
    } else if c == "Buxales"@ {
        seq!["AAACCCT"@]
    } else if c == "Camarodonta"@ {
        seq!["AACCCT"@]
    } else if c == "Caprimulgiformes"@ {
        seq!["AACCCT"@]
    } else if c == "Carcharhiniformes"@ {
        seq!["AACCCT"@]
    } else if c == "Cardiida"@ {
        seq!["AACCCT"@]
    } else if c == "Carnivora"@ {
        seq!["AACCCT"@]
    } else if c == "Caryophyllales"@ {
        seq!["AAACCCT"@]
    } else if c == "Celastrales"@ {
        seq!["AAACCCT"@]
    } else if c == "Chaetocerotales"@ {
        seq!["ACCCT"@]
    } else if c == "Cheilostomatida"@ {
        seq!["AAACCCC"@, "ACAGT"@, "AAGTCT"@]
    } else if c == "Chiroptera"@ {
        seq!["AACCCT"@]
    } else if c == "Chitonida"@ {
        seq!["AACCCT"@]
    } else if c == "Chlamydomonadales"@ {
        seq!["AAGGATGGAC"@, "AACCCT"@]
    } else if c == "Coleoptera"@ {
        seq!["AGATATAT"@, "AAAAATTC"@, "AAGTC"@, "AAGTCG"@, "AAAAATAC"@, "AAAGGTCACC"@, "AAAGGAC"@, "AACAGACCCG"@, "AAATAACT"@, "ACAGACTG"@, "AACAT"@, "AACTCC"@, "ACTATG"@, "ACCTG"@, "AAATAATT"@, "AACCT"@, "ACTCTG"@, "AAGACAGAC"@, "AAGTAATC"@, "AACCC"@]
    } else if c == "Comatulida"@ {
        seq!["AACCCT"@]
    } else if c == "Crassiclitellata"@ {
        seq!["AAGGAC"@, "AACTC"@, "AACCCT"@]
    } else if c == "Cucurbitales"@ {
        seq!["AAACCCT"@]
    } else if c == "Cypriniformes"@ {
        seq!["AACCCT"@]
    } else if c == "Decapoda"@ {
        seq!["AACCT"@]
    } else if c == "Dioctophymatida"@ {
        seq!["ACGATG"@]
    } else if c == "Dipsacales"@ {
        seq!["AAACCCT"@]
    } else if c == "Ericales"@ {
        seq!["AAGCATT"@, "AAACCCT"@, "AAGCATC"@]
    } else if c == "Eucoccidiorida"@ {
        seq!["AAACCCT"@, "AAGGAGGAGACAAT"@]
    } else if c == "Euglenales"@ {
        seq!["AACCCT"@]
    } else if c == "Eulipotyphla"@ {
        seq!["AACCCT"@]
    } else if c == "Fabales"@ {
        seq!["AAACCCT"@, "AACCT"@]
    } else if c == "Fagales"@ {
        seq!["AAACCCT"@]
    } else if c == "Forcipulatida"@ {
        seq!["AACCCT"@]
    } else if c == "Fucales"@ {
        seq!["ACACT"@, "AACCCT"@]
    } else if c == "Gentianales"@ {
        seq!["AAACCCT"@]
    } else if c == "Geophilomorpha"@ {
        seq!["AACCT"@]
    } else if c == "Geraniales"@ {
        seq!["AAACCCT"@, "AACCCT"@]
    } else if c == "Gigartinales"@ {
        seq!["ACAGGCGTGCCC"@]
    } else if c == "Glomerida"@ {
        seq!["AACCT"@]
    } else if c == "Hemiptera"@ {
        seq!["ACAGAGAGGC"@, "ACCGAG"@, "AACCT"@, "AATATAG"@, "AATAC"@, "AACACTCCCT"@, "AAACCTATCC"@, "AACCTACCT"@, "AAAATTGTTGATGGAGATCATAC"@, "AACCATCCCT"@, "AAACCACCCT"@, "AAGAAT"@, "AAGAATATAGAAT"@]
    } else if c == "Heteronemertea"@ {
        seq!["AACCCT"@]
    } else if c == "Hirudinida"@ {
        seq!["AACACGAGATG"@]
    } else if c == "Hymenoptera"@ {
        seq!["ACGATG"@, "AATAT"@, "AACGAGTCG"@, "AAACGAGTC"@, "AGAGAT"@, "AAAACG"@, "AACCCGAACCT"@, "AACCCAGACCT"@, "AACGTAT"@, "AAACAC"@, "AGGGATATC"@, "ACAGAG"@, "AAAAAC"@, "AACGAC"@, "ACCTG"@, "AACCCAGACCC"@, "AACCCAGACGC"@, "AACCCTGACGC"@, "ACTCT"@, "AACCT"@, "AACCCCAACCT"@, "ACATCGT"@, "AACCCT"@, "AACCC"@]
    } else if c == "Hypnales"@ {
        seq!["AAACCCT"@, "AACAG"@]
    } else if c == "Isochrysidales"@ {
        seq!["AACCCT"@]
    } else if c == "Lamiales"@ {
        seq!["AAACCCT"@, "AACCCTAAT"@]
    } else if c == "Lepidoptera"@ {
        seq!["ACTCTG"@, "AACCT"@, "AACTCG"@, "ACATC"@, "AACCATCCCT"@, "AAGACGGTAAGTGTGTATGTATGT"@, "AACGTGAT"@]
    } else if c == "Liliales"@ {
        seq!["AAACCCT"@]
    } else if c == "Lithobiomorpha"@ {
        seq!["AACCT"@, "AAAGTCG"@]
    } else if c == "Littorinimorpha"@ {
        seq!["AACCCT"@]
    } else if c == "Lunulariales"@ {
        seq!["AAACCCT"@]
    } else if c == "Lycopodiales"@ {
        seq!["AAACCCT"@]
    } else if c == "Malpighiales"@ {
        seq!["AAACCCT"@, "AACCCT"@]
    } else if c == "Malvales"@ {
        seq!["AAACCCT"@]
    } else if c == "Megaloptera"@ {
        seq!["AACCT"@]
    } else if c == "Myrtales"@ {
        seq!["AAACCCT"@]
    } else if c == "Neuroptera"@ {
        seq!["AACCC"@]
    } else if c == "Nudibranchia"@ {
        seq!["ACAGTAGC"@, "AAACAC"@]
    } else if c == "Odonata"@ {
        seq!["AGATC"@, "AGCCATCGCCAT"@, "AACCC"@]
    } else if c == "Opiliones"@ {
        seq!["ACGAG"@]
    } else if c == "Orthoptera"@ {
        seq!["AACCT"@]
    } else if c == "Ostreida"@ {
        seq!["AACCCT"@]
    } else if c == "Palmariales"@ {
        seq!["ACACTGAGT"@]
    } else if c == "Pectinida"@ {
        seq!["AACCCT"@]
    } else if c == "Pelecaniformes"@ {
        seq!["AACCCT"@]
    } else if c == "Perciformes"@ {
        seq!["AACCCT"@]
    } else if c == "Phlebobranchia"@ {
        seq!["AACCCT"@]
    } else if c == "Phyllodocida"@ {
        seq!["AACCCT"@]
    } else if c == "Plecoptera"@ {
        seq!["AACCT"@]
    } else if c == "Poales"@ {
        seq!["AAACCCT"@]
    } else if c == "Polytrichales"@ {
        seq!["AACCT"@]
    } else if c == "Primates"@ {
        seq!["AATGG"@]
    } else if c == "Procellariiformes"@ {
        seq!["AACCCT"@]
    } else if c == "Pyrenomonadales"@ {
        seq!["AAACCCT"@]
    } else if c == "Ranunculales"@ {
        seq!["AAACCCT"@, "AACCCTG"@, "AACCCCG"@, "AAACCG"@]
    } else if c == "Rhabditida"@ {
        seq!["AAGCCT"@]
    } else if c == "Rodentia"@ {
        seq!["AACCCT"@]
    } else if c == "Rosales"@ {
        seq!["AAACCCT"@]
    } else if c == "Sabellida"@ {
        seq!["AACCCT"@]
    } else if c == "Salmoniformes"@ {
        seq!["AACCCT"@]
    } else if c == "Sapindales"@ {
        seq!["AAACCCT"@]
    } else if c == "Scombriformes"@ {
        seq!["AACCCT"@]
    } else if c == "Scorpiones"@ {
        seq!["AACCT"@]
    } else if c == "Solanales"@ {
        seq!["AAACCCT"@, "AACCCTG"@]
    } else if c == "Sphagnales"@ {
        seq!["AAACCT"@]
    } else if c == "Stolidobranchia"@ {
        seq!["AACCCT"@]
    } else if c == "Trichoptera"@ {
        seq!["AACCT"@, "AATGACAGCG"@]
    } else if c == "Trochida"@ {
        seq!["AACATG"@, "AACCCT"@]
    } else if c == "Venerida"@ {
        seq!["AACCCT"@]
    } else {
        Seq::empty()
    }
}


/// Whether the table has an entry for `clade`; a caller tests this
/// before [`return_telomere_sequence`], which demands a known name.
pub fn clade_is_known(clade: &str) -> (b: bool)
    ensures
        b == is_known_clade(clade@),
{
    let c = String::from_str(clade);
    if clade_is(&c, "Accipitriformes") {
        return true;
    }
    if clade_is(&c, "Actiniaria") {
        return true;
    }
    if clade_is(&c, "Agaricales") {
        return true;
    }
    if clade_is(&c, "Alismatales") {
        return true;
    }
    if clade_is(&c, "Amphilepidida") {
        return true;
    }
    if clade_is(&c, "Anura") {
        return true;
    }
    if clade_is(&c, "Apiales") {
        return true;
    }
    if clade_is(&c, "Aplousobranchia") {
        return true;
    }
    if clade_is(&c, "Aquifoliales") {
        return true;
    }
    if clade_is(&c, "Araneae") {
        return true;
    }
    if clade_is(&c, "Artiodactyla") {
        return true;
    }
    if clade_is(&c, "Asparagales") {
        return true;
    }
    if clade_is(&c, "Asterales") {
        return true;
    }
    if clade_is(&c, "Atheriniformes") {
        return true;
    }
    if clade_is(&c, "Balanomorpha") {
        return true;
    }
    if clade_is(&c, "Boraginales") {
        return true;
    }
    if clade_is(&c, "Brassicales") {
        return true;
    }
    if clade_is(&c, "Buxales") {
        return true;
    }
    if clade_is(&c, "Camarodonta") {
        return true;
    }
    if clade_is(&c, "Caprimulgiformes") {
        return true;
    }
    if clade_is(&c, "Carcharhiniformes") {
        return true;
    }
    if clade_is(&c, "Cardiida") {
        return true;
    }
    if clade_is(&c, "Carnivora") {
        return true;
    }
    if clade_is(&c, "Caryophyllales") {
        return true;
    }
    if clade_is(&c, "Celastrales") {
        return true;
    }
    if clade_is(&c, "Chaetocerotales") {
        return true;
    }
    if clade_is(&c, "Cheilostomatida") {
        return true;
    }
    if clade_is(&c, "Chiroptera") {
        return true;
    }
    if clade_is(&c, "Chitonida") {
        return true;
    }
    if clade_is(&c, "Chlamydomonadales") {
        return true;
    }
    if clade_is(&c, "Coleoptera") {
        return true;
    }
    if clade_is(&c, "Comatulida") {
        return true;
    }
    if clade_is(&c, "Crassiclitellata") {
        return true;
    }
    if clade_is(&c, "Cucurbitales") {
        return true;
    }
    if clade_is(&c, "Cypriniformes") {
        return true;
    }
    if clade_is(&c, "Decapoda") {
        return true;
    }
    if clade_is(&c, "Dioctophymatida") {
        return true;
    }
    if clade_is(&c, "Dipsacales") {
        return true;
    }
    if clade_is(&c, "Ericales") {
        return true;
    }
    if clade_is(&c, "Eucoccidiorida") {
        return true;
    }
    if clade_is(&c, "Euglenales") {
        return true;
    }
    if clade_is(&c, "Eulipotyphla") {
        return true;
    }
    if clade_is(&c, "Fabales") {
        return true;
    }
    if clade_is(&c, "Fagales") {
        return true;
    }
    if clade_is(&c, "Forcipulatida") {
        return true;
    }
    if clade_is(&c, "Fucales") {
        return true;
    }
    if clade_is(&c, "Gentianales") {
        return true;
    }
    if clade_is(&c, "Geophilomorpha") {
        return true;
    }
    if clade_is(&c, "Geraniales") {
        return true;
    }
    if clade_is(&c, "Gigartinales") {
        return true;
    }
    if clade_is(&c, "Glomerida") {
        return true;
    }
    if clade_is(&c, "Hemiptera") {
        return true;
    }
    if clade_is(&c, "Heteronemertea") {
        return true;
    }
    if clade_is(&c, "Hirudinida") {
        return true;
    }
    if clade_is(&c, "Hymenoptera") {
        return true;
    }
    if clade_is(&c, "Hypnales") {
        return true;
    }
    if clade_is(&c, "Isochrysidales") {
        return true;
    }
    if clade_is(&c, "Lamiales") {
        return true;
    }
    if clade_is(&c, "Lepidoptera") {
        return true;
    }
    if clade_is(&c, "Liliales") {
        return true;
    }
    if clade_is(&c, "Lithobiomorpha") {
        return true;
    }
    if clade_is(&c, "Littorinimorpha") {
        return true;
    }
    if clade_is(&c, "Lunulariales") {
        return true;
    }
    if clade_is(&c, "Lycopodiales") {
        return true;
    }
    if clade_is(&c, "Malpighiales") {
        return true;
    }
    if clade_is(&c, "Malvales") {
        return true;
    }
    if clade_is(&c, "Megaloptera") {
        return true;
    }
    if clade_is(&c, "Myrtales") {
        return true;
    }
    if clade_is(&c, "Neuroptera") {
        return true;
    }
    if clade_is(&c, "Nudibranchia") {
        return true;
    }
    if clade_is(&c, "Odonata") {
        return true;
    }
    if clade_is(&c, "Opiliones") {
        return true;
    }
    if clade_is(&c, "Orthoptera") {
        return true;
    }
    if clade_is(&c, "Ostreida") {
        return true;
    }
    if clade_is(&c, "Palmariales") {
        return true;
    }
    if clade_is(&c, "Pectinida") {
        return true;
    }
    if clade_is(&c, "Pelecaniformes") {
        return true;
    }
    if clade_is(&c, "Perciformes") {
        return true;
    }
    if clade_is(&c, "Phlebobranchia") {
        return true;
    }
    if clade_is(&c, "Phyllodocida") {
        return true;
    }
    if clade_is(&c, "Plecoptera") {
        return true;
    }
    if clade_is(&c, "Poales") {
        return true;
    }
    if clade_is(&c, "Polytrichales") {
        return true;
    }
    if clade_is(&c, "Primates") {
        return true;
    }
    if clade_is(&c, "Procellariiformes") {
        return true;
    }
    if clade_is(&c, "Pyrenomonadales") {
        return true;
    }
    if clade_is(&c, "Ranunculales") {
        return true;
    }
    if clade_is(&c, "Rhabditida") {
        return true;
    }
    if clade_is(&c, "Rodentia") {
        return true;
    }
    if clade_is(&c, "Rosales") {
        return true;
    }
    if clade_is(&c, "Sabellida") {
        return true;
    }
    if clade_is(&c, "Salmoniformes") {
        return true;
    }
    if clade_is(&c, "Sapindales") {
        return true;
    }
    if clade_is(&c, "Scombriformes") {
        return true;
    }
    if clade_is(&c, "Scorpiones") {
        return true;
    }
    if clade_is(&c, "Solanales") {
        return true;
    }
    if clade_is(&c, "Sphagnales") {
        return true;
    }
    if clade_is(&c, "Stolidobranchia") {
        return true;
    }
    if clade_is(&c, "Trichoptera") {
        return true;
    }
    if clade_is(&c, "Trochida") {
        return true;
    }
    if clade_is(&c, "Venerida") {
        return true;
    }
    false
}


/// Looks a known clade name up in the table and returns its entry:
/// the name itself, the ordered repeat motifs, and their number.
pub fn return_telomere_sequence(clade: &str) -> (result: TelomereSeq)
    requires
        is_known_clade(clade@),
    ensures
        result.clade@ == clade@,
        motif_views(result.seq.0@) == telomere_motifs(clade@),
        result.length == telomere_motifs(clade@).len(),
        result.seq.0@.len() == result.length,
        1 <= result.length,
{
    let c = String::from_str(clade);
    if clade_is(&c, "Accipitriformes") {
        let mut v: Vec<&'static str> = Vec::new();
        v.push("AACCCT");
        proof {
            assert(motif_views(v@) =~= telomere_motifs(clade@));
        }
        TelomereSeq { clade: "Accipitriformes", seq: MotifSeq(v), length: 1 }
    } else if clade_is(&c, "Actiniaria") {
        let mut v: Vec<&'static str> = Vec::new();
        v.push("AACCCT");
        proof {
            assert(motif_views(v@) =~= telomere_motifs(clade@));
        }
        TelomereSeq { clade: "Actiniaria", seq: MotifSeq(v), length: 1 }
    } else if clade_is(&c, "Agaricales") {
        let mut v: Vec<&'static str> = Vec::new();
        v.push("AAACCCT");
        proof {
            assert(motif_views(v@) =~= telomere_motifs(clade@));
        }
        TelomereSeq { clade: "Agaricales", seq: MotifSeq(v), length: 1 }
    } else if clade_is(&c, "Alismatales") {
        let mut v: Vec<&'static str> = Vec::new();
        v.push("AAACCCT");
        proof {
            assert(motif_views(v@) =~= telomere_motifs(clade@));
        }
        TelomereSeq { clade: "Alismatales", seq: MotifSeq(v), length: 1 }
    } else if clade_is(&c, "Amphilepidida") {
        let mut v: Vec<&'static str> = Vec::new();
        v.push("AACCCT");
        proof {
            assert(motif_views(v@) =~= telomere_motifs(clade@));
        }
        TelomereSeq { clade: "Amphilepidida", seq: MotifSeq(v), length: 1 }
    } else if clade_is(&c, "Anura") {
        let mut v: Vec<&'static str> = Vec::new();
        v.push("AACCCT");
        proof {
            assert(motif_views(v@) =~= telomere_motifs(clade@));
        }
        TelomereSeq { clade: "Anura", seq: MotifSeq(v), length: 1 }
    } else if clade_is(&c, "Apiales") {
        let mut v: Vec<&'static str> = Vec::new();
        v.push("AAACCCT");
        proof {
            assert(motif_views(v@) =~= telomere_motifs(clade@));
        }
        TelomereSeq { clade: "Apiales", seq: MotifSeq(v), length: 1 }
    } else if clade_is(&c, "Aplousobranchia") {
        let mut v: Vec<&'static str> = Vec::new();
        v.push("AACCCT");
        proof {
            assert(motif_views(v@) =~= telomere_motifs(clade@));
        }
        TelomereSeq { clade: "Aplousobranchia", seq: MotifSeq(v), length: 1 }
    } else if clade_is(&c, "Aquifoliales") {
        let mut v: Vec<&'static str> = Vec::new();
        v.push("AAACCCT");
        proof {
            assert(motif_views(v@) =~= telomere_motifs(clade@));
        }
        TelomereSeq { clade: "Aquifoliales", seq: MotifSeq(v), length: 1 }
    } else if clade_is(&c, "Araneae") {
        let mut v: Vec<&'static str> = Vec::new();
        v.push("AATAT");
        v.push("ACTAT");
        v.push("AACAT");
        v.push("AAAGC");
        v.push("ACATG");
        v.push("AACTTGT");
        proof {
            assert(motif_views(v@) =~= telomere_motifs(clade@));
        }
        TelomereSeq { clade: "Araneae", seq: MotifSeq(v), length: 6 }
    } else if clade_is(&c, "Artiodactyla") {
        let mut v: Vec<&'static str> = Vec::new();
        v.push("AACCCT");
        proof {
            assert(motif_views(v@) =~= telomere_motifs(clade@));
        }
        TelomereSeq { clade: "Artiodactyla", seq: MotifSeq(v), length: 1 }
    } else if clade_is(&c, "Asparagales") {
        let mut v: Vec<&'static str> = Vec::new();
        v.push("AACCGAGCCCAT");
        v.push("AACCCT");
        proof {
            assert(motif_views(v@) =~= telomere_motifs(clade@));
        }
        TelomereSeq { clade: "Asparagales", seq: MotifSeq(v), length: 2 }
    } else if clade_is(&c, "Asterales") {
        let mut v: Vec<&'static str> = Vec::new();
        v.push("AAACCCT");
        proof {
            assert(motif_views(v@) =~= telomere_motifs(clade@));
        }
        TelomereSeq { clade: "Asterales", seq: MotifSeq(v), length: 1 }
    } else if clade_is(&c, "Atheriniformes") {
        let mut v: Vec<&'static str> = Vec::new();
        v.push("ACCAG");
        proof {
            assert(motif_views(v@) =~= telomere_motifs(clade@));
        }
        TelomereSeq { clade: "Atheriniformes", seq: MotifSeq(v), length: 1 }
    } else if clade_is(&c, "Balanomorpha") {
        let mut v: Vec<&'static str> = Vec::new();
        v.push("AACCT");
        proof {
            assert(motif_views(v@) =~= telomere_motifs(clade@));
        }
        TelomereSeq { clade: "Balanomorpha", seq: MotifSeq(v), length: 1 }
    } else if clade_is(&c, "Boraginales") {
        let mut v: Vec<&'static str> = Vec::new();
        v.push("AAACCCT");
        proof {
            assert(motif_views(v@) =~= telomere_motifs(clade@));
        }
        TelomereSeq { clade: "Boraginales", seq: MotifSeq(v), length: 1 }
    } else if clade_is(&c, "Brassicales") {
        let mut v: Vec<&'static str> = Vec::new();
        v.push("AAACCCT");
        proof {
            assert(motif_views(v@) =~= telomere_motifs(clade@));
        }
        TelomereSeq { clade: "Brassicales", seq: MotifSeq(v), length: 1 }
    } else if clade_is(&c, "Buxales") {
        let mut v: Vec<&'static str> = Vec::new();
        v.push("AAACCCT");
        proof {
            assert(motif_views(v@) =~= telomere_motifs(clade@));
        }
        TelomereSeq { clade: "Buxales", seq: MotifSeq(v), length: 1 }
    } else if clade_is(&c, "Camarodonta") {
        let mut v: Vec<&'static str> = Vec::new();
        v.push("AACCCT");
        proof {
            assert(motif_views(v@) =~= telomere_motifs(clade@));
        }
        TelomereSeq { clade: "Camarodonta", seq: MotifSeq(v), length: 1 }
    } else if clade_is(&c, "Caprimulgiformes") {
        let mut v: Vec<&'static str> = Vec::new();
        v.push("AACCCT");
        proof {
            assert(motif_views(v@) =~= telomere_motifs(clade@));
        }
        TelomereSeq { clade: "Caprimulgiformes", seq: MotifSeq(v), length: 1 }
    } else if clade_is(&c, "Carcharhiniformes") {
        let mut v: Vec<&'static str> = Vec::new();
        v.push("AACCCT");
        proof {
            assert(motif_views(v@) =~= telomere_motifs(clade@));
        }
        TelomereSeq { clade: "Carcharhiniformes", seq: MotifSeq(v), length: 1 }
    } else if clade_is(&c, "Cardiida") {
        let mut v: Vec<&'static str> = Vec::new();
        v.push("AACCCT");
        proof {
            assert(motif_views(v@) =~= telomere_motifs(clade@));
        }
        TelomereSeq { clade: "Cardiida", seq: MotifSeq(v), length: 1 }
    } else if clade_is(&c, "Carnivora") {
        let mut v: Vec<&'static str> = Vec::new();
        v.push("AACCCT");
        proof {
            assert(motif_views(v@) =~= telomere_motifs(clade@));
        }
        TelomereSeq { clade: "Carnivora", seq: MotifSeq(v), length: 1 }
    } else if clade_is(&c, "Caryophyllales") {
        let mut v: Vec<&'static str> = Vec::new();
        v.push("AAACCCT");
        proof {
            assert(motif_views(v@) =~= telomere_motifs(clade@));
        }
        TelomereSeq { clade: "Caryophyllales", seq: MotifSeq(v), length: 1 }
    } else if clade_is(&c, "Celastrales") {
        let mut v: Vec<&'static str> = Vec::new();
        v.push("AAACCCT");
        proof {
            assert(motif_views(v@) =~= telomere_motifs(clade@));
        }
        TelomereSeq { clade: "Celastrales", seq: MotifSeq(v), length: 1 }
    } else if clade_is(&c, "Chaetocerotales") {
        let mut v: Vec<&'static str> = Vec::new();
        v.push("ACCCT");
        proof {
            assert(motif_views(v@) =~= telomere_motifs(clade@));
        }
        TelomereSeq { clade: "Chaetocerotales", seq: MotifSeq(v), length: 1 }
    } else if clade_is(&c, "Cheilostomatida") {
        let mut v: Vec<&'static str> = Vec::new();
        v.push("AAACCCC");
        v.push("ACAGT");
        v.push("AAGTCT");
        proof {
            assert(motif_views(v@) =~= telomere_motifs(clade@));
        }
        TelomereSeq { clade: "Cheilostomatida", seq: MotifSeq(v), length: 3 }
    } else if clade_is(&c, "Chiroptera") {
        let mut v: Vec<&'static str> = Vec::new();
        v.push("AACCCT");
        proof {
            assert(motif_views(v@) =~= telomere_motifs(clade@));
        }
        TelomereSeq { clade: "Chiroptera", seq: MotifSeq(v), length: 1 }
    } else if clade_is(&c, "Chitonida") {
        let mut v: Vec<&'static str> = Vec::new();
        v.push("AACCCT");
        proof {
            assert(motif_views(v@) =~= telomere_motifs(clade@));
        }
        TelomereSeq { clade: "Chitonida", seq: MotifSeq(v), length: 1 }
    } else if clade_is(&c, "Chlamydomonadales") {
        let mut v: Vec<&'static str> = Vec::new();
        v.push("AAGGATGGAC");
        v.push("AACCCT");
        proof {
            assert(motif_views(v@) =~= telomere_motifs(clade@));
        }
        TelomereSeq { clade: "Chlamydomonadales", seq: MotifSeq(v), length: 2 }
    } else if clade_is(&c, "Coleoptera") {
        let mut v: Vec<&'static str> = Vec::new();
        v.push("AGATATAT");
        v.push("AAAAATTC");
        v.push("AAGTC");
        v.push("AAGTCG");
        v.push("AAAAATAC");
        v.push("AAAGGTCACC");
        v.push("AAAGGAC");
        v.push("AACAGACCCG");
        v.push("AAATAACT");
        v.push("ACAGACTG");
        v.push("AACAT");
        v.push("AACTCC");
        v.push("ACTATG");
        v.push("ACCTG");
        v.push("AAATAATT");
        v.push("AACCT");
        v.push("ACTCTG");
        v.push("AAGACAGAC");
        v.push("AAGTAATC");
        v.push("AACCC");
        proof {
            assert(motif_views(v@) =~= telomere_motifs(clade@));
        }
        TelomereSeq { clade: "Coleoptera", seq: MotifSeq(v), length: 20 }
    } else if clade_is(&c, "Comatulida") {
        let mut v: Vec<&'static str> = Vec::new();
        v.push("AACCCT");
        proof {
            assert(motif_views(v@) =~= telomere_motifs(clade@));
        }
        TelomereSeq { clade: "Comatulida", seq: MotifSeq(v), length: 1 }
    } else if clade_is(&c, "Crassiclitellata") {
        let mut v: Vec<&'static str> = Vec::new();
        v.push("AAGGAC");
        v.push("AACTC");
        v.push("AACCCT");
        proof {
            assert(motif_views(v@) =~= telomere_motifs(clade@));
        }
        TelomereSeq { clade: "Crassiclitellata", seq: MotifSeq(v), length: 3 }
    } else if clade_is(&c, "Cucurbitales") {
        let mut v: Vec<&'static str> = Vec::new();
        v.push("AAACCCT");
        proof {
            assert(motif_views(v@) =~= telomere_motifs(clade@));
        }
        TelomereSeq { clade: "Cucurbitales", seq: MotifSeq(v), length: 1 }
    } else if clade_is(&c, "Cypriniformes") {
        let mut v: Vec<&'static str> = Vec::new();
        v.push("AACCCT");
        proof {
            assert(motif_views(v@) =~= telomere_motifs(clade@));
        }
        TelomereSeq { clade: "Cypriniformes", seq: MotifSeq(v), length: 1 }
    } else if clade_is(&c, "Decapoda") {
        let mut v: Vec<&'static str> = Vec::new();
        v.push("AACCT");
        proof {
            assert(motif_views(v@) =~= telomere_motifs(clade@));
        }
        TelomereSeq { clade: "Decapoda", seq: MotifSeq(v), length: 1 }
    } else if clade_is(&c, "Dioctophymatida") {
        let mut v: Vec<&'static str> = Vec::new();
        v.push("ACGATG");
        proof {
            assert(motif_views(v@) =~= telomere_motifs(clade@));
        }
        TelomereSeq { clade: "Dioctophymatida", seq: MotifSeq(v), length: 1 }
    } else if clade_is(&c, "Dipsacales") {
        let mut v: Vec<&'static str> = Vec::new();
        v.push("AAACCCT");
        proof {
            assert(motif_views(v@) =~= telomere_motifs(clade@));
        }
        TelomereSeq { clade: "Dipsacales", seq: MotifSeq(v), length: 1 }
    } else if clade_is(&c, "Ericales") {
        let mut v: Vec<&'static str> = Vec::new();
        v.push("AAGCATT");
        v.push("AAACCCT");
        v.push("AAGCATC");
        proof {
            assert(motif_views(v@) =~= telomere_motifs(clade@));
        }
        TelomereSeq { clade: "Ericales", seq: MotifSeq(v), length: 3 }
    } else if clade_is(&c, "Eucoccidiorida") {
        let mut v: Vec<&'static str> = Vec::new();
        v.push("AAACCCT");
        v.push("AAGGAGGAGACAAT");
        proof {
            assert(motif_views(v@) =~= telomere_motifs(clade@));
        }
        TelomereSeq { clade: "Eucoccidiorida", seq: MotifSeq(v), length: 2 }
    } else if clade_is(&c, "Euglenales") {
        let mut v: Vec<&'static str> = Vec::new();
        v.push("AACCCT");
        proof {
            assert(motif_views(v@) =~= telomere_motifs(clade@));
        }
        TelomereSeq { clade: "Euglenales", seq: MotifSeq(v), length: 1 }
    } else if clade_is(&c, "Eulipotyphla") {
        let mut v: Vec<&'static str> = Vec::new();
        v.push("AACCCT");
        proof {
            assert(motif_views(v@) =~= telomere_motifs(clade@));
        }
        TelomereSeq { clade: "Eulipotyphla", seq: MotifSeq(v), length: 1 }
    } else if clade_is(&c, "Fabales") {
        let mut v: Vec<&'static str> = Vec::new();
        v.push("AAACCCT");
        v.push("AACCT");
        proof {
            assert(motif_views(v@) =~= telomere_motifs(clade@));
        }
        TelomereSeq { clade: "Fabales", seq: MotifSeq(v), length: 2 }
    } else if clade_is(&c, "Fagales") {
        let mut v: Vec<&'static str> = Vec::new();
        v.push("AAACCCT");
        proof {
            assert(motif_views(v@) =~= telomere_motifs(clade@));
        }
        TelomereSeq { clade: "Fagales", seq: MotifSeq(v), length: 1 }
    } else if clade_is(&c, "Forcipulatida") {
        let mut v: Vec<&'static str> = Vec::new();
        v.push("AACCCT");
        proof {
            assert(motif_views(v@) =~= telomere_motifs(clade@));
        }
        TelomereSeq { clade: "Forcipulatida", seq: MotifSeq(v), length: 1 }
    } else if clade_is(&c, "Fucales") {
        let mut v: Vec<&'static str> = Vec::new();
        v.push("ACACT");
        v.push("AACCCT");
        proof {
            assert(motif_views(v@) =~= telomere_motifs(clade@));
        }
        TelomereSeq { clade: "Fucales", seq: MotifSeq(v), length: 2 }
    } else if clade_is(&c, "Gentianales") {
        let mut v: Vec<&'static str> = Vec::new();
        v.push("AAACCCT");
        proof {
            assert(motif_views(v@) =~= telomere_motifs(clade@));
        }
        TelomereSeq { clade: "Gentianales", seq: MotifSeq(v), length: 1 }
    } else if clade_is(&c, "Geophilomorpha") {
        let mut v: Vec<&'static str> = Vec::new();
        v.push("AACCT");
        proof {
            assert(motif_views(v@) =~= telomere_motifs(clade@));
        }
        TelomereSeq { clade: "Geophilomorpha", seq: MotifSeq(v), length: 1 }
    } else if clade_is(&c, "Geraniales") {
        let mut v: Vec<&'static str> = Vec::new();
        v.push("AAACCCT");
        v.push("AACCCT");
        proof {
            assert(motif_views(v@) =~= telomere_motifs(clade@));
        }
        TelomereSeq { clade: "Geraniales", seq: MotifSeq(v), length: 2 }
    } else if clade_is(&c, "Gigartinales") {
        let mut v: Vec<&'static str> = Vec::new();
        v.push("ACAGGCGTGCCC");
        proof {
            assert(motif_views(v@) =~= telomere_motifs(clade@));
        }
        TelomereSeq { clade: "Gigartinales", seq: MotifSeq(v), length: 1 }
    } else if clade_is(&c, "Glomerida") {
        let mut v: Vec<&'static str> = Vec::new();
        v.push("AACCT");
        proof {
            assert(motif_views(v@) =~= telomere_motifs(clade@));
        }
        TelomereSeq { clade: "Glomerida", seq: MotifSeq(v), length: 1 }
    } else if clade_is(&c, "Hemiptera") {
        let mut v: Vec<&'static str> = Vec::new();
        v.push("ACAGAGAGGC");
        v.push("ACCGAG");
        v.push("AACCT");
        v.push("AATATAG");
        v.push("AATAC");
        v.push("AACACTCCCT");
        v.push("AAACCTATCC");
        v.push("AACCTACCT");
        v.push("AAAATTGTTGATGGAGATCATAC");
        v.push("AACCATCCCT");
        v.push("AAACCACCCT");
        v.push("AAGAAT");
        v.push("AAGAATATAGAAT");
        proof {
            assert(motif_views(v@) =~= telomere_motifs(clade@));
        }
        TelomereSeq { clade: "Hemiptera", seq: MotifSeq(v), length: 13 }
    } else if clade_is(&c, "Heteronemertea") {
        let mut v: Vec<&'static str> = Vec::new();
        v.push("AACCCT");
        proof {
            assert(motif_views(v@) =~= telomere_motifs(clade@));
        }
        TelomereSeq { clade: "Heteronemertea", seq: MotifSeq(v), length: 1 }
    } else if clade_is(&c, "Hirudinida") {
        let mut v: Vec<&'static str> = Vec::new();
        v.push("AACACGAGATG");
        proof {
            assert(motif_views(v@) =~= telomere_motifs(clade@));
        }
        TelomereSeq { clade: "Hirudinida", seq: MotifSeq(v), length: 1 }
    } else if clade_is(&c, "Hymenoptera") {
        let mut v: Vec<&'static str> = Vec::new();
        v.push("ACGATG");
        v.push("AATAT");
        v.push("AACGAGTCG");
        v.push("AAACGAGTC");
        v.push("AGAGAT");
        v.push("AAAACG");
        v.push("AACCCGAACCT");
        v.push("AACCCAGACCT");
        v.push("AACGTAT");
        v.push("AAACAC");
        v.push("AGGGATATC");
        v.push("ACAGAG");
        v.push("AAAAAC");
        v.push("AACGAC");
        v.push("ACCTG");
        v.push("AACCCAGACCC");
        v.push("AACCCAGACGC");
        v.push("AACCCTGACGC");
        v.push("ACTCT");
        v.push("AACCT");
        v.push("AACCCCAACCT");
        v.push("ACATCGT");
        v.push("AACCCT");
        v.push("AACCC");
        proof {
            assert(motif_views(v@) =~= telomere_motifs(clade@));
        }
        TelomereSeq { clade: "Hymenoptera", seq: MotifSeq(v), length: 24 }
    } else if clade_is(&c, "Hypnales") {
        let mut v: Vec<&'static str> = Vec::new();
        v.push("AAACCCT");
        v.push("AACAG");
        proof {
            assert(motif_views(v@) =~= telomere_motifs(clade@));
        }
        TelomereSeq { clade: "Hypnales", seq: MotifSeq(v), length: 2 }
    } else if clade_is(&c, "Isochrysidales") {
        let mut v: Vec<&'static str> = Vec::new();
        v.push("AACCCT");
        proof {
            assert(motif_views(v@) =~= telomere_motifs(clade@));
        }
        TelomereSeq { clade: "Isochrysidales", seq: MotifSeq(v), length: 1 }
    } else if clade_is(&c, "Lamiales") {
        let mut v: Vec<&'static str> = Vec::new();
        v.push("AAACCCT");
        v.push("AACCCTAAT");
        proof {
            assert(motif_views(v@) =~= telomere_motifs(clade@));
        }
        TelomereSeq { clade: "Lamiales", seq: MotifSeq(v), length: 2 }
    } else if clade_is(&c, "Lepidoptera") {
        let mut v: Vec<&'static str> = Vec::new();
        v.push("ACTCTG");
        v.push("AACCT");
        v.push("AACTCG");
        v.push("ACATC");
        v.push("AACCATCCCT");
        v.push("AAGACGGTAAGTGTGTATGTATGT");
        v.push("AACGTGAT");
        proof {
            assert(motif_views(v@) =~= telomere_motifs(clade@));
        }
        TelomereSeq { clade: "Lepidoptera", seq: MotifSeq(v), length: 7 }
    } else if clade_is(&c, "Liliales") {
        let mut v: Vec<&'static str> = Vec::new();
        v.push("AAACCCT");
        proof {
            assert(motif_views(v@) =~= telomere_motifs(clade@));
        }
        TelomereSeq { clade: "Liliales", seq: MotifSeq(v), length: 1 }
    } else if clade_is(&c, "Lithobiomorpha") {
        let mut v: Vec<&'static str> = Vec::new();
        v.push("AACCT");
        v.push("AAAGTCG");
        proof {
            assert(motif_views(v@) =~= telomere_motifs(clade@));
        }
        TelomereSeq { clade: "Lithobiomorpha", seq: MotifSeq(v), length: 2 }
    } else if clade_is(&c, "Littorinimorpha") {
        let mut v: Vec<&'static str> = Vec::new();
        v.push("AACCCT");
        proof {
            assert(motif_views(v@) =~= telomere_motifs(clade@));
        }
        TelomereSeq { clade: "Littorinimorpha", seq: MotifSeq(v), length: 1 }
    } else if clade_is(&c, "Lunulariales") {
        let mut v: Vec<&'static str> = Vec::new();
        v.push("AAACCCT");
        proof {
            assert(motif_views(v@) =~= telomere_motifs(clade@));
        }
        TelomereSeq { clade: "Lunulariales", seq: MotifSeq(v), length: 1 }
    } else if clade_is(&c, "Lycopodiales") {
        let mut v: Vec<&'static str> = Vec::new();
        v.push("AAACCCT");
        proof {
            assert(motif_views(v@) =~= telomere_motifs(clade@));
        }
        TelomereSeq { clade: "Lycopodiales", seq: MotifSeq(v), length: 1 }
    } else if clade_is(&c, "Malpighiales") {
        let mut v: Vec<&'static str> = Vec::new();
        v.push("AAACCCT");
        v.push("AACCCT");
        proof {
            assert(motif_views(v@) =~= telomere_motifs(clade@));
        }
        TelomereSeq { clade: "Malpighiales", seq: MotifSeq(v), length: 2 }
    } else if clade_is(&c, "Malvales") {
        let mut v: Vec<&'static str> = Vec::new();
        v.push("AAACCCT");
        proof {
            assert(motif_views(v@) =~= telomere_motifs(clade@));
        }
        TelomereSeq { clade: "Malvales", seq: MotifSeq(v), length: 1 }
    } else if clade_is(&c, "Megaloptera") {
        let mut v: Vec<&'static str> = Vec::new();
        v.push("AACCT");
        proof {
            assert(motif_views(v@) =~= telomere_motifs(clade@));
        }
        TelomereSeq { clade: "Megaloptera", seq: MotifSeq(v), length: 1 }
    } else if clade_is(&c, "Myrtales") {
        let mut v: Vec<&'static str> = Vec::new();
        v.push("AAACCCT");
        proof {
            assert(motif_views(v@) =~= telomere_motifs(clade@));
        }
        TelomereSeq { clade: "Myrtales", seq: MotifSeq(v), length: 1 }
    } else if clade_is(&c, "Neuroptera") {
        let mut v: Vec<&'static str> = Vec::new();
        v.push("AACCC");
        proof {
            assert(motif_views(v@) =~= telomere_motifs(clade@));
        }
        TelomereSeq { clade: "Neuroptera", seq: MotifSeq(v), length: 1 }
    } else if clade_is(&c, "Nudibranchia") {
        let mut v: Vec<&'static str> = Vec::new();
        v.push("ACAGTAGC");
        v.push("AAACAC");
        proof {
            assert(motif_views(v@) =~= telomere_motifs(clade@));
        }
        TelomereSeq { clade: "Nudibranchia", seq: MotifSeq(v), length: 2 }
    } else if clade_is(&c, "Odonata") {
        let mut v: Vec<&'static str> = Vec::new();
        v.push("AGATC");
        v.push("AGCCATCGCCAT");
        v.push("AACCC");
        proof {
            assert(motif_views(v@) =~= telomere_motifs(clade@));
        }
        TelomereSeq { clade: "Odonata", seq: MotifSeq(v), length: 3 }
    } else if clade_is(&c, "Opiliones") {
        let mut v: Vec<&'static str> = Vec::new();
        v.push("ACGAG");
        proof {
            assert(motif_views(v@) =~= telomere_motifs(clade@));
        }
        TelomereSeq { clade: "Opiliones", seq: MotifSeq(v), length: 1 }
    } else if clade_is(&c, "Orthoptera") {
        let mut v: Vec<&'static str> = Vec::new();
        v.push("AACCT");
        proof {
            assert(motif_views(v@) =~= telomere_motifs(clade@));
        }
        TelomereSeq { clade: "Orthoptera", seq: MotifSeq(v), length: 1 }
    } else if clade_is(&c, "Ostreida") {
        let mut v: Vec<&'static str> = Vec::new();
        v.push("AACCCT");
        proof {
            assert(motif_views(v@) =~= telomere_motifs(clade@));
        }
        TelomereSeq { clade: "Ostreida", seq: MotifSeq(v), length: 1 }
    } else if clade_is(&c, "Palmariales") {
        let mut v: Vec<&'static str> = Vec::new();
        v.push("ACACTGAGT");
        proof {
            assert(motif_views(v@) =~= telomere_motifs(clade@));
        }
        TelomereSeq { clade: "Palmariales", seq: MotifSeq(v), length: 1 }
    } else if clade_is(&c, "Pectinida") {
        let mut v: Vec<&'static str> = Vec::new();
        v.push("AACCCT");
        proof {
            assert(motif_views(v@) =~= telomere_motifs(clade@));
        }
        TelomereSeq { clade: "Pectinida", seq: MotifSeq(v), length: 1 }
    } else if clade_is(&c, "Pelecaniformes") {
        let mut v: Vec<&'static str> = Vec::new();
        v.push("AACCCT");
        proof {
            assert(motif_views(v@) =~= telomere_motifs(clade@));
        }
        TelomereSeq { clade: "Pelecaniformes", seq: MotifSeq(v), length: 1 }
    } else if clade_is(&c, "Perciformes") {
        let mut v: Vec<&'static str> = Vec::new();
        v.push("AACCCT");
        proof {
            assert(motif_views(v@) =~= telomere_motifs(clade@));
        }
        TelomereSeq { clade: "Perciformes", seq: MotifSeq(v), length: 1 }
    } else if clade_is(&c, "Phlebobranchia") {
        let mut v: Vec<&'static str> = Vec::new();
        v.push("AACCCT");
        proof {
            assert(motif_views(v@) =~= telomere_motifs(clade@));
        }
        TelomereSeq { clade: "Phlebobranchia", seq: MotifSeq(v), length: 1 }
    } else if clade_is(&c, "Phyllodocida") {
        let mut v: Vec<&'static str> = Vec::new();
        v.push("AACCCT");
        proof {
            assert(motif_views(v@) =~= telomere_motifs(clade@));
        }
        TelomereSeq { clade: "Phyllodocida", seq: MotifSeq(v), length: 1 }
    } else if clade_is(&c, "Plecoptera") {
        let mut v: Vec<&'static str> = Vec::new();
        v.push("AACCT");
        proof {
            assert(motif_views(v@) =~= telomere_motifs(clade@));
        }
        TelomereSeq { clade: "Plecoptera", seq: MotifSeq(v), length: 1 }
    } else if clade_is(&c, "Poales") {
        let mut v: Vec<&'static str> = Vec::new();
        v.push("AAACCCT");
        proof {
            assert(motif_views(v@) =~= telomere_motifs(clade@));
        }
        TelomereSeq { clade: "Poales", seq: MotifSeq(v), length: 1 }
    } else if clade_is(&c, "Polytrichales") {
        let mut v: Vec<&'static str> = Vec::new();
        v.push("AACCT");
        proof {
            assert(motif_views(v@) =~= telomere_motifs(clade@));
        }
        TelomereSeq { clade: "Polytrichales", seq: MotifSeq(v), length: 1 }
    } else if clade_is(&c, "Primates") {
        let mut v: Vec<&'static str> = Vec::new();
        v.push("AATGG");
        proof {
            assert(motif_views(v@) =~= telomere_motifs(clade@));
        }
        TelomereSeq { clade: "Primates", seq: MotifSeq(v), length: 1 }
    } else if clade_is(&c, "Procellariiformes") {
        let mut v: Vec<&'static str> = Vec::new();
        v.push("AACCCT");
        proof {
            assert(motif_views(v@) =~= telomere_motifs(clade@));
        }
        TelomereSeq { clade: "Procellariiformes", seq: MotifSeq(v), length: 1 }
    } else if clade_is(&c, "Pyrenomonadales") {
        let mut v: Vec<&'static str> = Vec::new();
        v.push("AAACCCT");
        proof {
            assert(motif_views(v@) =~= telomere_motifs(clade@));
        }
        TelomereSeq { clade: "Pyrenomonadales", seq: MotifSeq(v), length: 1 }
    } else if clade_is(&c, "Ranunculales") {
        let mut v: Vec<&'static str> = Vec::new();
        v.push("AAACCCT");
        v.push("AACCCTG");
        v.push("AACCCCG");
        v.push("AAACCG");
        proof {
            assert(motif_views(v@) =~= telomere_motifs(clade@));
        }
        TelomereSeq { clade: "Ranunculales", seq: MotifSeq(v), length: 4 }
    } else if clade_is(&c, "Rhabditida") {
        let mut v: Vec<&'static str> = Vec::new();
        v.push("AAGCCT");
        proof {
            assert(motif_views(v@) =~= telomere_motifs(clade@));
        }
        TelomereSeq { clade: "Rhabditida", seq: MotifSeq(v), length: 1 }
    } else if clade_is(&c, "Rodentia") {
        let mut v: Vec<&'static str> = Vec::new();
        v.push("AACCCT");
        proof {
            assert(motif_views(v@) =~= telomere_motifs(clade@));
        }
        TelomereSeq { clade: "Rodentia", seq: MotifSeq(v), length: 1 }
    } else if clade_is(&c, "Rosales") {
        let mut v: Vec<&'static str> = Vec::new();
        v.push("AAACCCT");
        proof {
            assert(motif_views(v@) =~= telomere_motifs(clade@));
        }
        TelomereSeq { clade: "Rosales", seq: MotifSeq(v), length: 1 }
    } else if clade_is(&c, "Sabellida") {
        let mut v: Vec<&'static str> = Vec::new();
        v.push("AACCCT");
        proof {
            assert(motif_views(v@) =~= telomere_motifs(clade@));
        }
        TelomereSeq { clade: "Sabellida", seq: MotifSeq(v), length: 1 }
    } else if clade_is(&c, "Salmoniformes") {
        let mut v: Vec<&'static str> = Vec::new();
        v.push("AACCCT");
        proof {
            assert(motif_views(v@) =~= telomere_motifs(clade@));
        }
        TelomereSeq { clade: "Salmoniformes", seq: MotifSeq(v), length: 1 }
    } else if clade_is(&c, "Sapindales") {
        let mut v: Vec<&'static str> = Vec::new();
        v.push("AAACCCT");
        proof {
            assert(motif_views(v@) =~= telomere_motifs(clade@));
        }
        TelomereSeq { clade: "Sapindales", seq: MotifSeq(v), length: 1 }
    } else if clade_is(&c, "Scombriformes") {
        let mut v: Vec<&'static str> = Vec::new();
        v.push("AACCCT");
        proof {
            assert(motif_views(v@) =~= telomere_motifs(clade@));
        }
        TelomereSeq { clade: "Scombriformes", seq: MotifSeq(v), length: 1 }
    } else if clade_is(&c, "Scorpiones") {
        let mut v: Vec<&'static str> = Vec::new();
        v.push("AACCT");
        proof {
            assert(motif_views(v@) =~= telomere_motifs(clade@));
        }
        TelomereSeq { clade: "Scorpiones", seq: MotifSeq(v), length: 1 }
    } else if clade_is(&c, "Solanales") {
        let mut v: Vec<&'static str> = Vec::new();
        v.push("AAACCCT");
        v.push("AACCCTG");
        proof {
            assert(motif_views(v@) =~= telomere_motifs(clade@));
        }
        TelomereSeq { clade: "Solanales", seq: MotifSeq(v), length: 2 }
    } else if clade_is(&c, "Sphagnales") {
        let mut v: Vec<&'static str> = Vec::new();
        v.push("AAACCT");
        proof {
            assert(motif_views(v@) =~= telomere_motifs(clade@));
        }
        TelomereSeq { clade: "Sphagnales", seq: MotifSeq(v), length: 1 }
    } else if clade_is(&c, "Stolidobranchia") {
        let mut v: Vec<&'static str> = Vec::new();
        v.push("AACCCT");
        proof {
            assert(motif_views(v@) =~= telomere_motifs(clade@));
        }
        TelomereSeq { clade: "Stolidobranchia", seq: MotifSeq(v), length: 1 }
    } else if clade_is(&c, "Trichoptera") {
        let mut v: Vec<&'static str> = Vec::new();
        v.push("AACCT");
        v.push("AATGACAGCG");
        proof {
            assert(motif_views(v@) =~= telomere_motifs(clade@));
        }
        TelomereSeq { clade: "Trichoptera", seq: MotifSeq(v), length: 2 }
    } else if clade_is(&c, "Trochida") {
        let mut v: Vec<&'static str> = Vec::new();
        v.push("AACATG");
        v.push("AACCCT");
        proof {
            assert(motif_views(v@) =~= telomere_motifs(clade@));
        }
        TelomereSeq { clade: "Trochida", seq: MotifSeq(v), length: 2 }
    } else if clade_is(&c, "Venerida") {
        let mut v: Vec<&'static str> = Vec::new();
        v.push("AACCCT");
        proof {
            assert(motif_views(v@) =~= telomere_motifs(clade@));
        }
        TelomereSeq { clade: "Venerida", seq: MotifSeq(v), length: 1 }
    } else {
        proof {
            assert(false);
        }
        unreached()
    }
}

} // verus!
