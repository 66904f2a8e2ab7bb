use vstd::prelude::*;
use vstd::string::*;
use crate::logic::{AminoAcid, DNANucleotides, RNANucleotides, TRNA};
use crate::text::push_char;

verus! {

/// The DNA nucleotide that a character names, if any.
pub open spec fn dna_base_of(c: char) -> Option<DNANucleotides> {
    if c == 'A' {
        Some(DNANucleotides::A)
    } else if c == 'T' {
        Some(DNANucleotides::T)
    } else if c == 'C' {
        Some(DNANucleotides::C)
    } else if c == 'G' {
        Some(DNANucleotides::G)
    } else {
        None
    }
}

/// The index of the first character of `s`, from `i` on, that names no DNA
/// nucleotide; `s.len()` if there is none.
pub open spec fn first_non_dna(s: Seq<char>, i: int) -> int
    decreases s.len() - i,
{
    if i < 0 || i >= s.len() {
        s.len() as int
    } else if dna_base_of(s[i]) is None {
        i
    } else {
        first_non_dna(s, i + 1)
    }
}

/// The DNA strand that a text of nucleotide letters names.
pub open spec fn dna_of(s: Seq<char>) -> Seq<DNANucleotides> {
    s.map_values(|c: char| dna_base_of(c)->Some_0)
}

/// The message of the error for a character that names no DNA nucleotide.
pub open spec fn unknown_dna_message(c: char) -> Seq<char> {
    "DNA nucleotide "@ + seq![c] + " not found"@
}

/// Reads a DNA strand from its letters (A, T, C, G). Fails on the first
/// other character, naming it.
pub fn string_to_dna_genetic_code(dna_string: &String) -> (r: Result<Vec<DNANucleotides>, String>)
    ensures
        match r {
            Ok(dna) => first_non_dna(dna_string@, 0) == dna_string@.len() && dna@ == dna_of(
                dna_string@,
            ),
            Err(e) => {
                let k = first_non_dna(dna_string@, 0);
                &&& k < dna_string@.len()
                &&& e@ == unknown_dna_message(dna_string@[k])
            },
        },
{
    let text = dna_string.as_str();
    let n = text.unicode_len();
    let mut dna_code: Vec<DNANucleotides> = Vec::new();
    let mut i: usize = 0;
    while i < n
        invariant
            n == text@.len(),
            text@ == dna_string@,
            i <= n,
            first_non_dna(text@, 0) == first_non_dna(text@, i as int),
            dna_code@ == dna_of(text@.take(i as int)),
        decreases n - i,
    {
        let c = text.get_char(i);
        let base = if c == 'A' {
            DNANucleotides::A
        } else if c == 'T' {
            DNANucleotides::T
        } else if c == 'C' {
            DNANucleotides::C
        } else if c == 'G' {
            DNANucleotides::G
        } else {
            let mut message = String::from_str("DNA nucleotide ");
            push_char(&mut message, c);
            message.append(" not found");
            return Err(message);
        };
        dna_code.push(base);
        i += 1;
        assert(text@.take(i as int) =~= text@.take(i - 1).push(c));
        assert(dna_code@ =~= dna_of(text@.take(i as int)));
    }
    assert(text@.take(i as int) =~= text@);
    Ok(dna_code)
}

/// The RNA nucleotide that a character names, if any.
pub open spec fn rna_base_of(c: char) -> Option<RNANucleotides> {
    if c == 'A' {
        Some(RNANucleotides::A)
    } else if c == 'U' {
        Some(RNANucleotides::U)
    } else if c == 'C' {
        Some(RNANucleotides::C)
    } else if c == 'G' {
        Some(RNANucleotides::G)
    } else {
        None
    }
}

/// The index of the first character of `s`, from `i` on, that names no RNA
/// nucleotide; `s.len()` if there is none.
pub open spec fn first_non_rna(s: Seq<char>, i: int) -> int
    decreases s.len() - i,
{
    if i < 0 || i >= s.len() {
        s.len() as int
    } else if rna_base_of(s[i]) is None {
        i
    } else {
        first_non_rna(s, i + 1)
    }
}

/// The RNA nucleotides that a text of nucleotide letters names.
pub open spec fn rna_of(s: Seq<char>) -> Seq<RNANucleotides> {
    s.map_values(|c: char| rna_base_of(c)->Some_0)
}

/// The message of the error for a codon text that is not three characters long.
pub open spec fn codon_length_message() -> Seq<char> {
    "RNA string not length 3"@
}

/// The message of the error for a character that names no RNA nucleotide.
pub open spec fn unknown_rna_message(c: char) -> Seq<char> {
    "Incorrect RNA nucleotide: "@ + seq![c]
}

/// Why a text is no codon: its length, else its first character that names
/// no RNA nucleotide; none if it is one.
pub open spec fn codon_error(s: Seq<char>) -> Option<Seq<char>> {
    if s.len() != 3 {
        Some(codon_length_message())
    } else if first_non_rna(s, 0) < 3 {
        Some(unknown_rna_message(s[first_non_rna(s, 0)]))
    } else {
        None
    }
}

/// Reads a codon from a text of exactly three RNA nucleotide letters
/// (A, U, C, G).
pub fn convert_rna_string_to_rna_codon(rna_string: String) -> (r: Result<
    [RNANucleotides; 3],
    String,
>)
    ensures
        match r {
            Ok(codon) => codon_error(rna_string@) is None && codon@ == rna_of(rna_string@),
            Err(e) => codon_error(rna_string@) == Some(e@),
        },
{
    let mut codon = [RNANucleotides::A;3];
    let text = rna_string.as_str();
    if text.unicode_len() != 3 {
        return Err(String::from_str("RNA string not length 3"));
    }
    let mut i: usize = 0;
    while i < 3
        invariant
            text@ == rna_string@,
            text@.len() == 3,
            i <= 3,
            first_non_rna(text@, 0) == first_non_rna(text@, i as int),
            forall|k: int| 0 <= k < i ==> rna_base_of(text@[k]) == Some(#[trigger] codon@[k]),
        decreases 3 - i,
    {
        let c = text.get_char(i);
        codon[i] = if c == 'A' {
            RNANucleotides::A
        } else if c == 'U' {
            RNANucleotides::U
        } else if c == 'C' {
            RNANucleotides::C
        } else if c == 'G' {
            RNANucleotides::G
        } else {
            let mut message = String::from_str("Incorrect RNA nucleotide: ");
            push_char(&mut message, c);
            return Err(message);
        };
        i += 1;
    }
    assert(codon@ =~= rna_of(text@));
    Ok(codon)
}

/// A codon table entry as text: the codon's letters, the amino acid's
/// abbreviation, its one-letter code and its full name.
#[derive(Debug)]
pub struct StringifiedTRNA {
    pub codon: String,
    pub amino_acid: String,
    pub letter: char,
    pub full_name: String,
}

/// The message of the error for an abbreviation that is not three characters long.
pub open spec fn abbreviation_length_message() -> Seq<char> {
    "Amino acid abreiviation not length 3"@
}

/// Why a textual entry is no table entry: its codon, else the length of its
/// abbreviation; none if it is one.
pub open spec fn entry_error(e: StringifiedTRNA) -> Option<Seq<char>> {
    if codon_error(e.codon@) is Some {
        codon_error(e.codon@)
    } else if e.amino_acid@.len() != 3 {
        Some(abbreviation_length_message())
    } else {
        None
    }
}

/// `t` is the table entry that the textual entry `e` describes.
pub open spec fn entry_converted(e: StringifiedTRNA, t: TRNA) -> bool {
    &&& t.codon@ == rna_of(e.codon@)
    &&& t.amino_acid.abreiviation@ == e.amino_acid@
    &&& t.amino_acid.letter == e.letter
    &&& t.amino_acid.name == e.full_name
}

/// The index of the first entry of `es`, from `i` on, that is faulty;
/// `es.len()` if there is none.
pub open spec fn first_faulty_entry(es: Seq<StringifiedTRNA>, i: int) -> int
    decreases es.len() - i,
{
    if i < 0 || i >= es.len() {
        es.len() as int
    } else if entry_error(es[i]) is Some {
        i
    } else {
        first_faulty_entry(es, i + 1)
    }
}

/// Builds a codon table from its textual entries, in order. Fails on the
/// first faulty entry, with the reason for it.
pub fn convert_stringified_trna_to_trna(vec_of_stringified_trna: Vec<StringifiedTRNA>) -> (r: Result<
    Vec<TRNA>,
    String,
>)
    ensures
        match r {
            Ok(table) => {
                &&& first_faulty_entry(vec_of_stringified_trna@, 0)
                    == vec_of_stringified_trna@.len()
                &&& table@.len() == vec_of_stringified_trna@.len()
                &&& forall|i: int|
                    0 <= i < table@.len() ==> entry_converted(
                        #[trigger] vec_of_stringified_trna@[i],
                        table@[i],
                    )
            },
            Err(e) => {
                let k = first_faulty_entry(vec_of_stringified_trna@, 0);
                &&& k < vec_of_stringified_trna@.len()
                &&& entry_error(vec_of_stringified_trna@[k]) == Some(e@)
            },
        },
{
    let entries = &vec_of_stringified_trna;
    let mut vec_of_trna: Vec<TRNA> = Vec::new();
    let mut i: usize = 0;
    while i < entries.len()
        invariant
            entries@ == vec_of_stringified_trna@,
            i <= entries@.len(),
            first_faulty_entry(entries@, 0) == first_faulty_entry(entries@, i as int),
            vec_of_trna@.len() == i,
            forall|k: int| 0 <= k < i ==> entry_converted(#[trigger] entries@[k], vec_of_trna@[k]),
        decreases entries@.len() - i,
    {
        let entry = &entries[i];
        assert(*entry == entries@[i as int]);
        let codon = match convert_rna_string_to_rna_codon(entry.codon.clone()) {
            Ok(codon) => codon,
            Err(e) => return Err(e),
        };
        let abbreviation = entry.amino_acid.as_str();
        if abbreviation.unicode_len() != 3 {
            return Err(String::from_str("Amino acid abreiviation not length 3"));
        }
        let mut abreiviation = ['\0';3];
        let mut j: usize = 0;
        while j < 3
            invariant
                abbreviation@.len() == 3,
                j <= 3,
                forall|k: int| 0 <= k < j ==> #[trigger] abreiviation@[k] == abbreviation@[k],
            decreases 3 - j,
        {
            abreiviation[j] = abbreviation.get_char(j);
            j += 1;
        }
        assert(abreiviation@ =~= abbreviation@);
        let trna = TRNA {
            codon,
            amino_acid: AminoAcid {
                abreiviation,
                letter: entry.letter,
                name: entry.full_name.clone(),
            },
        };
        vec_of_trna.push(trna);
        i += 1;
    }
    Ok(vec_of_trna)
}

} // verus!
