use vstd::prelude::*;

verus! {

/// A nucleotide of an RNA strand.
#[derive(Debug, Clone, Copy, PartialEq, Eq, Structural)]
pub enum RNANucleotides {
    A,
    U,
    G,
    C,
}

/// A nucleotide of a DNA strand.
#[derive(Debug, Clone, Copy, PartialEq, Eq, Structural)]
pub enum DNANucleotides {
    A,
    T,
    G,
    C,
}

/// The base-pairing partner of a DNA nucleotide: A with T, C with G.
pub open spec fn paired_base(n: DNANucleotides) -> DNANucleotides {
    match n {
        DNANucleotides::A => DNANucleotides::T,
        DNANucleotides::T => DNANucleotides::A,
        DNANucleotides::C => DNANucleotides::G,
        DNANucleotides::G => DNANucleotides::C,
    }
}

/// The complementary strand: every nucleotide replaced by its partner.
pub open spec fn complement_of(dna: Seq<DNANucleotides>) -> Seq<DNANucleotides> {
    dna.map_values(|n: DNANucleotides| paired_base(n))
}

/// The RNA nucleotide that transcription writes for a DNA template
/// nucleotide: A to U, T to A, C to G, G to C.
pub open spec fn transcribed_base(n: DNANucleotides) -> RNANucleotides {
    match n {
        DNANucleotides::A => RNANucleotides::U,
        DNANucleotides::T => RNANucleotides::A,
        DNANucleotides::C => RNANucleotides::G,
        DNANucleotides::G => RNANucleotides::C,
    }
}

/// The messenger RNA of a DNA template strand, base by base.
pub open spec fn transcribed(dna: Seq<DNANucleotides>) -> Seq<RNANucleotides> {
    dna.map_values(|n: DNANucleotides| transcribed_base(n))
}

/// Transcribes a DNA template strand into messenger RNA. Never fails.
pub fn transcription(dna_genetic_code: &Vec<DNANucleotides>) -> (r: Result<
    Vec<RNANucleotides>,
    String,
>)
    ensures
        r matches Ok(mrna) && mrna@ == transcribed(dna_genetic_code@),
        r matches Ok(mrna) && mrna@.len() == dna_genetic_code@.len(),
{
    let mut mrna: Vec<RNANucleotides> = Vec::new();
    let mut i: usize = 0;
    while i < dna_genetic_code.len()
        invariant
            i <= dna_genetic_code@.len(),
            mrna@ == transcribed(dna_genetic_code@.take(i as int)),
        decreases dna_genetic_code@.len() - i,
    {
        let base = match dna_genetic_code[i] {
            DNANucleotides::A => RNANucleotides::U,
            DNANucleotides::T => RNANucleotides::A,
            DNANucleotides::C => RNANucleotides::G,
            DNANucleotides::G => RNANucleotides::C,
        };
        mrna.push(base);
        i += 1;
        assert(dna_genetic_code@.take(i as int) =~= dna_genetic_code@.take(i - 1).push(
            dna_genetic_code@[i - 1],
        ));
        assert(mrna@ =~= transcribed(dna_genetic_code@.take(i as int)));
    }
    assert(dna_genetic_code@.take(i as int) =~= dna_genetic_code@);
    Ok(mrna)
}

/// The complementary DNA strand (A with T, C with G), of the same length.
pub fn dna_complement(dna: &Vec<DNANucleotides>) -> (r: Vec<DNANucleotides>)
    ensures
        r@ == complement_of(dna@),
        r@.len() == dna@.len(),
{
    let mut new_dna: Vec<DNANucleotides> = Vec::new();
    let mut i: usize = 0;
    while i < dna.len()
        invariant
            i <= dna@.len(),
            new_dna@ == complement_of(dna@.take(i as int)),
        decreases dna@.len() - i,
    {
        let base = match dna[i] {
            DNANucleotides::A => DNANucleotides::T,
            DNANucleotides::T => DNANucleotides::A,
            DNANucleotides::C => DNANucleotides::G,
            DNANucleotides::G => DNANucleotides::C,
        };
        new_dna.push(base);
        i += 1;
        assert(dna@.take(i as int) =~= dna@.take(i - 1).push(dna@[i - 1]));
        assert(new_dna@ =~= complement_of(dna@.take(i as int)));
    }
    assert(dna@.take(i as int) =~= dna@);
    new_dna
}

/// Complementing a strand twice gives the strand back.
pub proof fn lemma_complement_involutive(dna: Seq<DNANucleotides>)
    ensures
        complement_of(complement_of(dna)) == dna,
        complement_of(dna).len() == dna.len(),
{
    assert(complement_of(complement_of(dna)) =~= dna);
}

/// Transcription maps each nucleotide on its own: equal nucleotides, wherever
/// they stand and in whichever strand, are transcribed alike; so transcribing
/// one strand twice gives the same messenger RNA.
pub proof fn lemma_transcription_per_base(
    a: Seq<DNANucleotides>,
    b: Seq<DNANucleotides>,
    i: int,
    j: int,
)
    requires
        0 <= i < a.len(),
        0 <= j < b.len(),
        a[i] == b[j],
    ensures
        transcribed(a).len() == a.len(),
        transcribed(a)[i] == transcribed(b)[j],
        a == b ==> transcribed(a) == transcribed(b),
{
}

/// One entry of a codon table: a codon and the amino acid it stands for.
#[derive(Debug)]
pub struct TRNA {
    pub codon: [RNANucleotides; 3],
    pub amino_acid: AminoAcid,
}

/// An amino acid: its three-letter abbreviation, its one-letter code and its
/// full name.
#[derive(Debug, Clone)]
pub struct AminoAcid {
    pub abreiviation: [char; 3],
    pub letter: char,
    pub name: String,
}

/// The amino acid of the first entry of `table`, from index `j` on, whose
/// codon is `codon`; none if no such entry exists.
pub open spec fn lookup_from(table: Seq<TRNA>, codon: Seq<RNANucleotides>, j: int) -> Option<
    AminoAcid,
>
    decreases table.len() - j,
{
    if j < 0 || j >= table.len() {
        None
    } else if table[j].codon@ == codon {
        Some(table[j].amino_acid)
    } else {
        lookup_from(table, codon, j + 1)
    }
}

/// The amino acid that `table` gives for `codon`: the first matching entry wins.
pub open spec fn lookup(table: Seq<TRNA>, codon: Seq<RNANucleotides>) -> Option<AminoAcid> {
    lookup_from(table, codon, 0)
}

/// The amino acids of an RNA strand: its consecutive triplets from the start,
/// each looked up in `table`. A triplet without a matching entry gives
/// nothing, and fewer than three trailing nucleotides are ignored.
pub open spec fn translated(table: Seq<TRNA>, rna: Seq<RNANucleotides>) -> Seq<AminoAcid>
    decreases rna.len(),
{
    if rna.len() < 3 {
        Seq::empty()
    } else {
        let rest = translated(table, rna.skip(3));
        match lookup(table, rna.take(3)) {
            Some(a) => seq![a] + rest,
            None => rest,
        }
    }
}

/// The message of the error for an RNA strand shorter than one codon.
pub open spec fn short_rna_message() -> Seq<char> {
    "Not enough codons for translation"@
}

fn copy_amino_acid(a: &AminoAcid) -> (r: AminoAcid)
    ensures
        r == *a,
{
    AminoAcid { abreiviation: a.abreiviation, letter: a.letter, name: a.name.clone() }
}

/// Translates messenger RNA into amino acids with the codon table
/// `vec_of_trna`. Fails exactly when the strand is shorter than one codon.
pub fn translation(vec_of_trna: &Vec<TRNA>, mrna: &Vec<RNANucleotides>) -> (r: Result<
    Vec<AminoAcid>,
    String,
>)
    ensures
        mrna@.len() < 3 <==> r is Err,
        r matches Err(e) ==> e@ == short_rna_message(),
        r matches Ok(amino_acids) ==> amino_acids@ == translated(vec_of_trna@, mrna@),
        r matches Ok(amino_acids) ==> amino_acids@.len() <= mrna@.len() / 3,
{
    if mrna.len() < 3 {
        return Err(String::from_str("Not enough codons for translation"));
    }
    let mut amino_acids: Vec<AminoAcid> = Vec::new();
    let mut i: usize = 0;
    assert(mrna@.skip(0) =~= mrna@);
    assert(amino_acids@ + translated(vec_of_trna@, mrna@) =~= translated(vec_of_trna@, mrna@));
    while i < mrna.len() - 2
        invariant
            3 <= mrna@.len(),
            i <= mrna@.len(),
            translated(vec_of_trna@, mrna@) == amino_acids@ + translated(
                vec_of_trna@,
                mrna@.skip(i as int),
            ),
        decreases mrna@.len() - i,
    {
        let ghost triplet = mrna@.subrange(i as int, i + 3);
        let ghost before = amino_acids@;
        let second: usize = i + 1;
        let third: usize = i + 2;
        let mut j: usize = 0;
        while j < vec_of_trna.len()
            invariant_except_break
                j <= vec_of_trna@.len(),
                lookup(vec_of_trna@, triplet) == lookup_from(vec_of_trna@, triplet, j as int),
                amino_acids@ == before,
            invariant
                i + 3 <= mrna@.len(),
                second == i + 1,
                third == i + 2,
                triplet == mrna@.subrange(i as int, i + 3),
            ensures
                match lookup(vec_of_trna@, triplet) {
                    Some(a) => amino_acids@ == before.push(a),
                    None => amino_acids@ == before,
                },
            decreases vec_of_trna@.len() - j,
        {
            let trna = &vec_of_trna[j];
            if trna.codon[0] == mrna[i] && trna.codon[1] == mrna[second] && trna.codon[2]
                == mrna[third] {
                assert(trna.codon@ =~= triplet);
                amino_acids.push(copy_amino_acid(&trna.amino_acid));
                break;
            }
            assert(trna.codon@ != triplet) by {
                if trna.codon@ == triplet {
                    assert(trna.codon@[0] == triplet[0]);
                    assert(trna.codon@[1] == triplet[1]);
                    assert(trna.codon@[2] == triplet[2]);
                }
            }
            j += 1;
        }
        proof {
            let rest = mrna@.skip(i as int);
            assert(rest.take(3) =~= triplet);
            assert(rest.skip(3) =~= mrna@.skip(i + 3));
        }
        i += 3;
    }
    proof {
        lemma_translated_length(vec_of_trna@, mrna@);
    }
    Ok(amino_acids)
}

/// A strand of `n` nucleotides translates into at most `n / 3` amino acids.
pub proof fn lemma_translated_length(table: Seq<TRNA>, rna: Seq<RNANucleotides>)
    ensures
        translated(table, rna).len() <= rna.len() / 3,
    decreases rna.len(),
{
    if rna.len() >= 3 {
        lemma_translated_length(table, rna.skip(3));
    }
}

/// With an empty codon table every strand translates into no amino acids.
pub proof fn lemma_empty_table_translates_to_nothing(rna: Seq<RNANucleotides>)
    ensures
        translated(Seq::<TRNA>::empty(), rna) == Seq::<AminoAcid>::empty(),
    decreases rna.len(),
{
    if rna.len() >= 3 {
        lemma_empty_table_translates_to_nothing(rna.skip(3));
    }
}

/// A triplet that matches no entry of the table is skipped: a strand that
/// holds one translates into fewer amino acids than it has triplets.
pub proof fn lemma_unmatched_triplet_is_skipped(
    table: Seq<TRNA>,
    rna: Seq<RNANucleotides>,
    k: int,
)
    requires
        0 <= k < rna.len() / 3,
        lookup(table, rna.subrange(3 * k, 3 * k + 3)) is None,
    ensures
        translated(table, rna).len() < rna.len() / 3,
    decreases k,
{
    lemma_translated_length(table, rna.skip(3));
    if k > 0 {
        assert(rna.skip(3).subrange(3 * (k - 1), 3 * (k - 1) + 3) =~= rna.subrange(
            3 * k,
            3 * k + 3,
        ));
        lemma_unmatched_triplet_is_skipped(table, rna.skip(3), k - 1);
    } else {
        assert(rna.take(3) =~= rna.subrange(0, 3));
    }
}

} // verus!
