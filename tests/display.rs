use genetic_code::display::{abbreviations_text, dna_text, rna_text};
use genetic_code::logic::{AminoAcid, DNANucleotides as D, RNANucleotides as R};

#[test]
fn dna_text_in_codons() {
    assert_eq!(dna_text(&vec![D::T, D::A, D::C, D::C, D::T, D::T, D::G, D::G]), "TAC/CTT/GG");
    assert_eq!(dna_text(&vec![D::T, D::A, D::C]), "TAC/");
    assert_eq!(dna_text(&vec![]), "");
}

#[test]
fn rna_text_in_codons() {
    assert_eq!(rna_text(&vec![R::A, R::U, R::G, R::C]), "AUG/C");
}

#[test]
fn abbreviations_joined() {
    let amino_acids = vec![
        AminoAcid { abreiviation: ['M', 'e', 't'], letter: 'M', name: String::from("Methionine") },
        AminoAcid { abreiviation: ['P', 'h', 'e'], letter: 'F', name: String::from("Phenylalanine") },
    ];
    assert_eq!(abbreviations_text(&amino_acids), "Met-Phe-");
    assert_eq!(abbreviations_text(&vec![]), "");
}
