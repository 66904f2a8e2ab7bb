use genetic_code::input::{
    convert_rna_string_to_rna_codon, convert_stringified_trna_to_trna,
    string_to_dna_genetic_code, StringifiedTRNA,
};
use genetic_code::logic::{DNANucleotides as D, RNANucleotides as R};

fn text_entry(codon: &str, abbreviation: &str, letter: char, name: &str) -> StringifiedTRNA {
    StringifiedTRNA {
        codon: codon.to_string(),
        amino_acid: abbreviation.to_string(),
        letter,
        full_name: name.to_string(),
    }
}

#[test]
fn dna_from_letters() {
    assert_eq!(
        string_to_dna_genetic_code(&String::from("TACG")),
        Ok(vec![D::T, D::A, D::C, D::G])
    );
}

#[test]
fn dna_from_empty_text() {
    assert_eq!(string_to_dna_genetic_code(&String::new()), Ok(vec![]));
}

#[test]
fn dna_names_the_first_unknown_letter() {
    assert_eq!(
        string_to_dna_genetic_code(&String::from("TAUXC")),
        Err(String::from("DNA nucleotide U not found"))
    );
    assert_eq!(
        string_to_dna_genetic_code(&String::from("tac")),
        Err(String::from("DNA nucleotide t not found"))
    );
}

#[test]
fn codon_from_letters() {
    assert_eq!(convert_rna_string_to_rna_codon(String::from("AUG")), Ok([R::A, R::U, R::G]));
    assert_eq!(convert_rna_string_to_rna_codon(String::from("CGU")), Ok([R::C, R::G, R::U]));
}

#[test]
fn codon_of_wrong_length() {
    for text in ["", "AU", "AUGC"] {
        assert_eq!(
            convert_rna_string_to_rna_codon(String::from(text)),
            Err(String::from("RNA string not length 3"))
        );
    }
}

#[test]
fn codon_with_unknown_letter() {
    assert_eq!(
        convert_rna_string_to_rna_codon(String::from("ATG")),
        Err(String::from("Incorrect RNA nucleotide: T"))
    );
}

#[test]
fn table_from_text_entries() {
    let table = convert_stringified_trna_to_trna(vec![
        text_entry("AUG", "Met", 'M', "Methionine"),
        text_entry("UUU", "Phe", 'F', "Phenylalanine"),
    ])
    .unwrap();
    assert_eq!(table.len(), 2);
    assert_eq!(table[0].codon, [R::A, R::U, R::G]);
    assert_eq!(table[0].amino_acid.abreiviation, ['M', 'e', 't']);
    assert_eq!(table[0].amino_acid.letter, 'M');
    assert_eq!(table[0].amino_acid.name, "Methionine");
    assert_eq!(table[1].codon, [R::U, R::U, R::U]);
    assert_eq!(table[1].amino_acid.abreiviation, ['P', 'h', 'e']);
    assert_eq!(table[1].amino_acid.name, "Phenylalanine");
}

#[test]
fn table_from_no_entries() {
    assert_eq!(convert_stringified_trna_to_trna(vec![]).unwrap().len(), 0);
}

#[test]
fn table_with_long_abbreviation() {
    let result = convert_stringified_trna_to_trna(vec![
        text_entry("AUG", "Met", 'M', "Methionine"),
        text_entry("UUU", "Phen", 'F', "Phenylalanine"),
    ]);
    assert_eq!(result.err(), Some(String::from("Amino acid abreiviation not length 3")));
}

#[test]
fn table_reports_the_first_faulty_entry() {
    let result = convert_stringified_trna_to_trna(vec![
        text_entry("AUG", "Met", 'M', "Methionine"),
        text_entry("UXU", "Phe", 'F', "Phenylalanine"),
        text_entry("UU", "Ph", 'F', "Phenylalanine"),
    ]);
    assert_eq!(result.err(), Some(String::from("Incorrect RNA nucleotide: X")));
}
