use vstd::prelude::*;
use crate::logic::{AminoAcid, DNANucleotides, RNANucleotides};
use crate::text::push_char;

verus! {

/// The letter that names a DNA nucleotide.
pub open spec fn dna_letter(n: DNANucleotides) -> char {
    match n {
        DNANucleotides::A => 'A',
        DNANucleotides::T => 'T',
        DNANucleotides::G => 'G',
        DNANucleotides::C => 'C',
    }
}

/// The letter that names an RNA nucleotide.
pub open spec fn rna_letter(n: RNANucleotides) -> char {
    match n {
        RNANucleotides::A => 'A',
        RNANucleotides::U => 'U',
        RNANucleotides::G => 'G',
        RNANucleotides::C => 'C',
    }
}

/// The first `i` letters of `letters`, with a '/' after each one that
/// closes a group of three.
pub open spec fn grouped_upto(letters: Seq<char>, i: int) -> Seq<char>
    decreases i,
{
    if i <= 0 {
        Seq::empty()
    } else {
        let tail = if (i - 1) % 3 == 2 {
            seq![letters[i - 1], '/']
        } else {
            seq![letters[i - 1]]
        };
        grouped_upto(letters, i - 1) + tail
    }
}

/// A strand's letters in codons: "TAC/CTT/GG".
pub open spec fn grouped(letters: Seq<char>) -> Seq<char> {
    grouped_upto(letters, letters.len() as int)
}

/// The text of a DNA strand, in groups of three letters closed by '/'.
pub fn dna_text(dna: &Vec<DNANucleotides>) -> (r: String)
    ensures
        r@ == grouped(dna@.map_values(|n: DNANucleotides| dna_letter(n))),
{
    let ghost letters = dna@.map_values(|n: DNANucleotides| dna_letter(n));
    let mut text = String::new();
    let mut in_group: usize = 0;
    let mut i: usize = 0;
    while i < dna.len()
        invariant
            letters == dna@.map_values(|n: DNANucleotides| dna_letter(n)),
            i <= dna@.len(),
            in_group == i % 3,
            text@ == grouped_upto(letters, i as int),
        decreases dna@.len() - i,
    {
        let letter = match dna[i] {
            DNANucleotides::A => 'A',
            DNANucleotides::T => 'T',
            DNANucleotides::G => 'G',
            DNANucleotides::C => 'C',
        };
        push_char(&mut text, letter);
        in_group += 1;
        if in_group == 3 {
            in_group = 0;
            push_char(&mut text, '/');
        }
        i += 1;
        assert(text@ =~= grouped_upto(letters, i as int));
    }
    text
}

/// The text of an RNA strand, in groups of three letters closed by '/'.
pub fn rna_text(rna: &Vec<RNANucleotides>) -> (r: String)
    ensures
        r@ == grouped(rna@.map_values(|n: RNANucleotides| rna_letter(n))),
{
    let ghost letters = rna@.map_values(|n: RNANucleotides| rna_letter(n));
    let mut text = String::new();
    let mut in_group: usize = 0;
    let mut i: usize = 0;
    while i < rna.len()
        invariant
            letters == rna@.map_values(|n: RNANucleotides| rna_letter(n)),
            i <= rna@.len(),
            in_group == i % 3,
            text@ == grouped_upto(letters, i as int),
        decreases rna@.len() - i,
    {
        let letter = match rna[i] {
            RNANucleotides::A => 'A',
            RNANucleotides::U => 'U',
            RNANucleotides::G => 'G',
            RNANucleotides::C => 'C',
        };
        push_char(&mut text, letter);
        in_group += 1;
        if in_group == 3 {
            in_group = 0;
            push_char(&mut text, '/');
        }
        i += 1;
        assert(text@ =~= grouped_upto(letters, i as int));
    }
    text
}

/// The abbreviations of the first `i` amino acids, each followed by '-'.
pub open spec fn abbreviations_upto(amino_acids: Seq<AminoAcid>, i: int) -> Seq<char>
    decreases i,
{
    if i <= 0 {
        Seq::empty()
    } else {
        abbreviations_upto(amino_acids, i - 1) + amino_acids[i - 1].abreiviation@ + seq!['-']
    }
}

/// The abbreviations of a chain of amino acids, each followed by '-':
/// "Met-Phe-".
pub fn abbreviations_text(amino_acids: &Vec<AminoAcid>) -> (r: String)
    ensures
        r@ == abbreviations_upto(amino_acids@, amino_acids@.len() as int),
{
    let mut text = String::new();
    let mut i: usize = 0;
    while i < amino_acids.len()
        invariant
            i <= amino_acids@.len(),
            text@ == abbreviations_upto(amino_acids@, i as int),
        decreases amino_acids@.len() - i,
    {
        let abreiviation = amino_acids[i].abreiviation;
        push_char(&mut text, abreiviation[0]);
        push_char(&mut text, abreiviation[1]);
        push_char(&mut text, abreiviation[2]);
        push_char(&mut text, '-');
        i += 1;
        assert(text@ =~= abbreviations_upto(amino_acids@, i as int));
    }
    text
}

} // verus!
