//! Nucleotide sequences, genes, and the lookup-table decoder that turns a
//! genome's sequence into organism traits.
//!
//! Gene map and their traits:
//!
//! | gene segment | trait | gene value | trait value/effect |
//! |---|---|---|---|
//! | 0-4 | color | AATTC | red |
//! | 0-4 | color | ATTTC | green |
//! | 0-4 | color | ATCTC | blue |
//! | 0-4 | color | ATGTC | yellow |
//! | 0-4 | color | ATATC | purple |
//! | 5-9 | size | CCCGT | small |
//! | 5-9 | size | CCTGT | medium |
//! | 5-9 | size | CCGGT | large |
//! | 10-14 | shape | GGGGA | round |
//! | 10-14 | shape | GGCGA | square |
//! | 15-19 | temperature resistance | TTTTT | high |
//! | 15-19 | temperature resistance | TTGTT | medium |
//! | 15-19 | temperature resistance | TTATT | low |
//! | 15-19 | temperature resistance | TTAAT | none |
//! | 20-24 | water resistance | AAAAA | high |
//! | 20-24 | water resistance | AAATA | none |
//! | 25-29 | metabolism | GCGCG | high |
//! | 25-29 | metabolism | GCGTG | medium |
//! | 25-29 | metabolism | GCGAG | low |
//! | 30-34 | speed | TTTTT | high |
//! | 30-34 | speed | TTGTT | medium |
//! | 30-34 | speed | TTATT | low |
//! | 30-34 | speed | TTAAT | none |
//! | 35-39 | breeding rate | CCCCC | high |
//! | 35-39 | breeding rate | CCCTC | medium |
//! | 35-39 | breeding rate | CCCAC | low |
//! | 35-39 | breeding rate | CCCAA | none |
//! | 40-44 | lifespan | GGGGG | long |
//! | 40-44 | lifespan | GGCGG | medium |
//! | 40-44 | lifespan | GGAGG | short |
//!
//! A segment shared by two traits (TTTTT and friends serve both temperature
//! resistance and speed) keeps only the insertion made last, exactly as a
//! map built by overwriting inserts would.

use vstd::prelude::*;
use vstd::string::StrSliceExecFns;
use crate::evolution::Organism;

verus! {

use Nucleotide::{A, C, G, T};

/// One nucleotide of a gene sequence.
#[derive(Clone, Copy, Debug, PartialEq, Eq, Structural)]
pub enum Nucleotide {
    A,
    T,
    C,
    G,
}

/// Whether the character names a nucleotide.
pub open spec fn is_nucleotide_char(c: char) -> bool {
    c == 'A' || c == 'T' || c == 'C' || c == 'G'
}

impl Nucleotide {
    /// The nucleotide a valid character names.
    pub open spec fn spec_of_char(c: char) -> Nucleotide {
        if c == 'A' {
            A
        } else if c == 'T' {
            T
        } else if c == 'C' {
            C
        } else {
            G
        }
    }

    /// The character naming this nucleotide.
    pub open spec fn spec_char(self) -> char {
        match self {
            A => 'A',
            T => 'T',
            C => 'C',
            G => 'G',
        }
    }

    /// The numeric code of this nucleotide.
    pub open spec fn spec_code(self) -> u8 {
        match self {
            A => 0,
            T => 1,
            C => 2,
            G => 3,
        }
    }

    /// Reads a nucleotide from its naming character; any other character
    /// is rejected by the caller.
    pub fn from_char(c: char) -> (r: Nucleotide)
        requires
            is_nucleotide_char(c),
        ensures
            r == Nucleotide::spec_of_char(c),
            r.spec_char() == c,
    {
        if c == 'A' {
            A
        } else if c == 'T' {
            T
        } else if c == 'C' {
            C
        } else {
            G
        }
    }

    /// The character naming this nucleotide.
    pub fn to_char(self) -> (r: char)
        ensures
            r == self.spec_char(),
    {
        match self {
            A => 'A',
            T => 'T',
            C => 'C',
            G => 'G',
        }
    }

    /// Reads a nucleotide from its numeric code; codes above 3 are
    /// rejected by the caller.
    pub fn from_code(code: u8) -> (r: Nucleotide)
        requires
            code < 4,
        ensures
            r.spec_code() == code,
    {
        if code == 0 {
            A
        } else if code == 1 {
            T
        } else if code == 2 {
            C
        } else {
            G
        }
    }

    /// The numeric code of this nucleotide.
    pub fn to_code(self) -> (r: u8)
        ensures
            r == self.spec_code(),
    {
        match self {
            A => 0,
            T => 1,
            C => 2,
            G => 3,
        }
    }
}

/// A gene sequence: an ordered run of nucleotides.
pub type Sequence = Vec<Nucleotide>;

/// Reads a sequence from its text form, one nucleotide per character. The
/// text must name nucleotides only.
pub fn create_sequence_from_str(sequence: &str) -> (r: Sequence)
    requires
        forall|i: int| 0 <= i < sequence@.len() ==> is_nucleotide_char(#[trigger] sequence@[i]),
    ensures
        r@ == sequence@.map_values(|c: char| Nucleotide::spec_of_char(c)),
        r@.len() == sequence@.len(),
        forall|i: int| 0 <= i < r@.len() ==> r@[i] == Nucleotide::spec_of_char(sequence@[i]),
{
    let len = sequence.unicode_len();
    let mut result: Vec<Nucleotide> = Vec::new();
    let mut i: usize = 0;
    while i < len
        invariant
            len == sequence@.len(),
            i <= len,
            forall|j: int| 0 <= j < sequence@.len() ==> is_nucleotide_char(#[trigger] sequence@[j]),
            result@.len() == i,
            forall|j: int| 0 <= j < i ==> result@[j] == Nucleotide::spec_of_char(sequence@[j]),
        decreases len - i,
    {
        let c = sequence.get_char(i);
        result.push(Nucleotide::from_char(c));
        i = i + 1;
    }
    proof {
        assert(result@ =~= sequence@.map_values(|c: char| Nucleotide::spec_of_char(c)));
    }
    result
}

/// A gene: one sequence.
#[derive(Debug, Clone)]
pub struct Gene {
    pub sequence: Sequence,
}

/// A genome: an ordered collection of genes.
#[derive(Debug, Clone)]
pub struct Genome {
    pub genes: Vec<Gene>,
}

/// The length of one gene sequence.
pub const GENE_LENGTH: usize = 5;

/// The genes' sequences laid end to end, in order.
pub open spec fn spec_combined(genes: Seq<Gene>) -> Seq<Nucleotide>
    decreases genes.len(),
{
    if genes.len() == 0 {
        Seq::empty()
    } else {
        spec_combined(genes.drop_last()) + genes.last().sequence@
    }
}

/// Lays the genes' sequences end to end into one genome sequence.
pub fn combine_genes_into_one_sequence(genes: &Vec<Gene>) -> (r: Sequence)
    ensures
        r@ == spec_combined(genes@),
{
    let mut result: Vec<Nucleotide> = Vec::new();
    let mut i: usize = 0;
    while i < genes.len()
        invariant
            i <= genes@.len(),
            result@ == spec_combined(genes@.take(i as int)),
        decreases genes@.len() - i,
    {
        let gene = &genes[i];
        let mut j: usize = 0;
        while j < gene.sequence.len()
            invariant
                j <= gene.sequence@.len(),
                gene == genes@[i as int],
                i < genes@.len(),
                result@ == spec_combined(genes@.take(i as int)) + gene.sequence@.take(j as int),
            decreases gene.sequence@.len() - j,
        {
            result.push(gene.sequence[j]);
            proof {
                assert(gene.sequence@.take(j as int + 1) =~= gene.sequence@.take(j as int).push(
                    gene.sequence@[j as int],
                ));
            }
            j = j + 1;
        }
        proof {
            assert(gene.sequence@.take(gene.sequence@.len() as int) =~= gene.sequence@);
            assert(genes@.take(i as int + 1).drop_last() =~= genes@.take(i as int));
            assert(genes@.take(i as int + 1).last() == genes@[i as int]);
        }
        i = i + 1;
    }
    proof {
        assert(genes@.take(genes@.len() as int) =~= genes@);
    }
    result
}

/// A trait decoded from one gene segment: which stat it affects, and how.
#[derive(Clone, Copy, Debug, PartialEq, Eq, Structural)]
pub enum GeneTrait {
    Color(GeneValue),
    Size(GeneValue),
    Shape(GeneValue),
    TemperatureResistance(GeneValue),
    WaterResistance(GeneValue),
    Metabolism(GeneValue),
    Speed(GeneValue),
    BreedingRate(GeneValue),
    Lifespan(GeneValue),
}

/// The effect a decoded trait carries.
#[derive(Clone, Copy, Debug, PartialEq, Eq, Structural)]
pub enum GeneValue {
    Red,
    Green,
    Blue,
    Yellow,
    Purple,
    Small,
    Medium,
    Large,
    Round,
    Square,
    HighTemperatureResistance,
    MediumTemperatureResistance,
    LowTemperatureResistance,
    NoTemperatureResistance,
    HighWaterResistance,
    NoWaterResistance,
    HighMetabolism,
    MediumMetabolism,
    LowMetabolism,
    HighSpeed,
    MediumSpeed,
    LowSpeed,
    NoSpeed,
    HighBreedingRate,
    MediumBreedingRate,
    LowBreedingRate,
    NoBreedingRate,
    LongLifespan,
    MediumLifespan,
    ShortLifespan,
}

/// The map the entry list denotes: later insertions overwrite earlier ones
/// with the same key.
pub open spec fn map_of_entries(entries: Seq<(Sequence, GeneTrait)>) -> Map<
    Seq<Nucleotide>,
    GeneTrait,
>
    decreases entries.len(),
{
    if entries.len() == 0 {
        Map::empty()
    } else {
        map_of_entries(entries.drop_last()).insert(entries.last().0@, entries.last().1)
    }
}

/// A mapping from gene segments to traits, built by overwriting inserts.
pub struct GeneMap {
    entries: Vec<(Sequence, GeneTrait)>,
}

impl View for GeneMap {
    type V = Map<Seq<Nucleotide>, GeneTrait>;

    closed spec fn view(&self) -> Map<Seq<Nucleotide>, GeneTrait> {
        map_of_entries(self.entries@)
    }
}

/// Whether the two sequences hold the same nucleotides in the same order.
fn sequence_eq(a: &Sequence, b: &Sequence) -> (r: bool)
    ensures
        r == (a@ == b@),
{
    if a.len() != b.len() {
        return false;
    }
    let mut i: usize = 0;
    while i < a.len()
        invariant
            a@.len() == b@.len(),
            i <= a@.len(),
            forall|j: int| 0 <= j < i ==> a@[j] == b@[j],
        decreases a@.len() - i,
    {
        if a[i] != b[i] {
            return false;
        }
        i = i + 1;
    }
    proof {
        assert(a@ =~= b@);
    }
    true
}

impl GeneMap {
    /// An empty map.
    pub fn new() -> (r: GeneMap)
        ensures
            r@ == Map::<Seq<Nucleotide>, GeneTrait>::empty(),
    {
        GeneMap { entries: Vec::new() }
    }

    /// Binds a segment to a trait, overwriting any earlier binding of the
    /// same segment.
    pub fn insert(&mut self, key: Sequence, value: GeneTrait)
        ensures
            final(self)@ == old(self)@.insert(key@, value),
    {
        let ghost orig = self.entries@;
        self.entries.push((key, value));
        proof {
            assert(self.entries@.drop_last() =~= orig);
        }
    }

    /// The trait bound to the segment, or absent when none is.
    pub fn get(&self, key: &Sequence) -> (r: Option<GeneTrait>)
        ensures
            r == (if self@.contains_key(key@) {
                Some(self@[key@])
            } else {
                None::<GeneTrait>
            }),
    {
        let ghost all = self.entries@;
        let mut i: usize = self.entries.len();
        proof {
            assert(all.take(all.len() as int) =~= all);
        }
        while i > 0
            invariant
                i <= all.len(),
                all == self.entries@,
                map_of_entries(all).contains_key(key@) == map_of_entries(
                    all.take(i as int),
                ).contains_key(key@),
                map_of_entries(all).contains_key(key@) ==> map_of_entries(all)[key@]
                    == map_of_entries(all.take(i as int))[key@],
            decreases i,
        {
            proof {
                assert(all.take(i as int).drop_last() =~= all.take(i as int - 1));
                assert(all.take(i as int).last() == all[i as int - 1]);
            }
            let entry = &self.entries[i - 1];
            if sequence_eq(&entry.0, key) {
                return Some(entry.1);
            }
            i = i - 1;
        }
        proof {
            assert(all.take(0) =~= Seq::<(Sequence, GeneTrait)>::empty());
        }
        None
    }
}

/// Builds one five-nucleotide sequence.
fn sequence5(
    n0: Nucleotide,
    n1: Nucleotide,
    n2: Nucleotide,
    n3: Nucleotide,
    n4: Nucleotide,
) -> (r: Sequence)
    ensures
        r@ == seq![n0, n1, n2, n3, n4],
{
    let mut v: Vec<Nucleotide> = Vec::new();
    v.push(n0);
    v.push(n1);
    v.push(n2);
    v.push(n3);
    v.push(n4);
    proof {
        assert(v@ =~= seq![n0, n1, n2, n3, n4]);
    }
    v
}

/// The full segment-to-trait table, in insertion order; a segment bound
/// twice keeps the later binding.
pub open spec fn gene_map_model() -> Map<Seq<Nucleotide>, GeneTrait> {
    Map::empty()
        .insert(seq![A, A, T, T, C], GeneTrait::Color(GeneValue::Red))
        .insert(seq![A, T, T, T, C], GeneTrait::Color(GeneValue::Green))
        .insert(seq![A, T, C, T, C], GeneTrait::Color(GeneValue::Blue))
        .insert(seq![A, T, G, T, C], GeneTrait::Color(GeneValue::Yellow))
        .insert(seq![A, T, A, T, C], GeneTrait::Color(GeneValue::Purple))
        .insert(seq![C, C, C, G, T], GeneTrait::Size(GeneValue::Small))
        .insert(seq![C, C, T, G, T], GeneTrait::Size(GeneValue::Medium))
        .insert(seq![C, C, G, G, T], GeneTrait::Size(GeneValue::Large))
        .insert(seq![G, G, G, G, A], GeneTrait::Shape(GeneValue::Round))
        .insert(seq![G, G, C, G, A], GeneTrait::Shape(GeneValue::Square))
        .insert(
            seq![T, T, T, T, T],
            GeneTrait::TemperatureResistance(GeneValue::HighTemperatureResistance),
        )
        .insert(
            seq![T, T, G, T, T],
            GeneTrait::TemperatureResistance(GeneValue::MediumTemperatureResistance),
        )
        .insert(
            seq![T, T, A, T, T],
            GeneTrait::TemperatureResistance(GeneValue::LowTemperatureResistance),
        )
        .insert(
            seq![T, T, A, A, T],
            GeneTrait::TemperatureResistance(GeneValue::NoTemperatureResistance),
        )
        .insert(seq![A, A, A, A, A], GeneTrait::WaterResistance(GeneValue::HighWaterResistance))
        .insert(seq![A, A, A, T, A], GeneTrait::WaterResistance(GeneValue::NoWaterResistance))
        .insert(seq![G, C, G, C, G], GeneTrait::Metabolism(GeneValue::HighMetabolism))
        .insert(seq![G, C, G, T, G], GeneTrait::Metabolism(GeneValue::MediumMetabolism))
        .insert(seq![G, C, G, A, G], GeneTrait::Metabolism(GeneValue::LowMetabolism))
        .insert(seq![T, T, T, T, T], GeneTrait::Speed(GeneValue::HighSpeed))
        .insert(seq![T, T, G, T, T], GeneTrait::Speed(GeneValue::MediumSpeed))
        .insert(seq![T, T, A, T, T], GeneTrait::Speed(GeneValue::LowSpeed))
        .insert(seq![T, T, A, A, T], GeneTrait::Speed(GeneValue::NoSpeed))
        .insert(seq![C, C, C, C, C], GeneTrait::BreedingRate(GeneValue::HighBreedingRate))
        .insert(seq![C, C, C, T, C], GeneTrait::BreedingRate(GeneValue::MediumBreedingRate))
        .insert(seq![C, C, C, A, C], GeneTrait::BreedingRate(GeneValue::LowBreedingRate))
        .insert(seq![C, C, C, A, A], GeneTrait::BreedingRate(GeneValue::NoBreedingRate))
        .insert(seq![G, G, G, G, G], GeneTrait::Lifespan(GeneValue::LongLifespan))
        .insert(seq![G, G, C, G, G], GeneTrait::Lifespan(GeneValue::MediumLifespan))
        .insert(seq![G, G, A, G, G], GeneTrait::Lifespan(GeneValue::ShortLifespan))
}

/// Builds the segment-to-trait table.
pub fn create_gene_map() -> (r: GeneMap)
    ensures
        r@ == gene_map_model(),
{
    let mut gene_map = GeneMap::new();

    gene_map.insert(sequence5(A, A, T, T, C), GeneTrait::Color(GeneValue::Red));
    gene_map.insert(sequence5(A, T, T, T, C), GeneTrait::Color(GeneValue::Green));
    gene_map.insert(sequence5(A, T, C, T, C), GeneTrait::Color(GeneValue::Blue));
    gene_map.insert(sequence5(A, T, G, T, C), GeneTrait::Color(GeneValue::Yellow));
    gene_map.insert(sequence5(A, T, A, T, C), GeneTrait::Color(GeneValue::Purple));

    gene_map.insert(sequence5(C, C, C, G, T), GeneTrait::Size(GeneValue::Small));
    gene_map.insert(sequence5(C, C, T, G, T), GeneTrait::Size(GeneValue::Medium));
    gene_map.insert(sequence5(C, C, G, G, T), GeneTrait::Size(GeneValue::Large));

    gene_map.insert(sequence5(G, G, G, G, A), GeneTrait::Shape(GeneValue::Round));
    gene_map.insert(sequence5(G, G, C, G, A), GeneTrait::Shape(GeneValue::Square));

    gene_map.insert(
        sequence5(T, T, T, T, T),
        GeneTrait::TemperatureResistance(GeneValue::HighTemperatureResistance),
    );
    gene_map.insert(
        sequence5(T, T, G, T, T),
        GeneTrait::TemperatureResistance(GeneValue::MediumTemperatureResistance),
    );
    gene_map.insert(
        sequence5(T, T, A, T, T),
        GeneTrait::TemperatureResistance(GeneValue::LowTemperatureResistance),
    );
    gene_map.insert(
        sequence5(T, T, A, A, T),
        GeneTrait::TemperatureResistance(GeneValue::NoTemperatureResistance),
    );

    gene_map.insert(
        sequence5(A, A, A, A, A),
        GeneTrait::WaterResistance(GeneValue::HighWaterResistance),
    );
    gene_map.insert(
        sequence5(A, A, A, T, A),
        GeneTrait::WaterResistance(GeneValue::NoWaterResistance),
    );

    gene_map.insert(sequence5(G, C, G, C, G), GeneTrait::Metabolism(GeneValue::HighMetabolism));
    gene_map.insert(sequence5(G, C, G, T, G), GeneTrait::Metabolism(GeneValue::MediumMetabolism));
    gene_map.insert(sequence5(G, C, G, A, G), GeneTrait::Metabolism(GeneValue::LowMetabolism));

    gene_map.insert(sequence5(T, T, T, T, T), GeneTrait::Speed(GeneValue::HighSpeed));
    gene_map.insert(sequence5(T, T, G, T, T), GeneTrait::Speed(GeneValue::MediumSpeed));
    gene_map.insert(sequence5(T, T, A, T, T), GeneTrait::Speed(GeneValue::LowSpeed));
    gene_map.insert(sequence5(T, T, A, A, T), GeneTrait::Speed(GeneValue::NoSpeed));

    gene_map.insert(sequence5(C, C, C, C, C), GeneTrait::BreedingRate(GeneValue::HighBreedingRate));
    gene_map.insert(
        sequence5(C, C, C, T, C),
        GeneTrait::BreedingRate(GeneValue::MediumBreedingRate),
    );
    gene_map.insert(sequence5(C, C, C, A, C), GeneTrait::BreedingRate(GeneValue::LowBreedingRate));
    gene_map.insert(sequence5(C, C, C, A, A), GeneTrait::BreedingRate(GeneValue::NoBreedingRate));

    gene_map.insert(sequence5(G, G, G, G, G), GeneTrait::Lifespan(GeneValue::LongLifespan));
    gene_map.insert(sequence5(G, G, C, G, G), GeneTrait::Lifespan(GeneValue::MediumLifespan));
    gene_map.insert(sequence5(G, G, A, G, G), GeneTrait::Lifespan(GeneValue::ShortLifespan));

    gene_map
}

/// The trait bound to a segment, or absent when the map binds none.
pub open spec fn spec_lookup(m: Map<Seq<Nucleotide>, GeneTrait>, key: Seq<Nucleotide>) -> Option<
    GeneTrait,
> {
    if m.contains_key(key) {
        Some(m[key])
    } else {
        None
    }
}

/// The `k`-th five-nucleotide segment of a genome sequence.
pub open spec fn spec_segment(s: Seq<Nucleotide>, k: int) -> Seq<Nucleotide> {
    s.subrange(k * (GENE_LENGTH as int), k * (GENE_LENGTH as int) + (GENE_LENGTH as int))
}

/// One five-nucleotide segment copied out of a genome sequence.
fn copy_segment(s: &Sequence, start: usize) -> (r: Sequence)
    requires
        start + GENE_LENGTH <= s@.len(),
    ensures
        r@ == s@.subrange(start as int, start as int + GENE_LENGTH as int),
{
    let mut v: Vec<Nucleotide> = Vec::new();
    let mut j: usize = 0;
    while j < GENE_LENGTH
        invariant
            start + GENE_LENGTH <= s@.len(),
            j <= GENE_LENGTH,
            v@ == s@.subrange(start as int, start as int + j as int),
        decreases GENE_LENGTH - j,
    {
        let n = s.len();
        proof {
            assert(start + j < n);
        }
        v.push(s[start + j]);
        proof {
            assert(s@.subrange(start as int, start as int + j as int + 1) =~= s@.subrange(
                start as int,
                start as int + j as int,
            ).push(s@[start as int + j as int]));
        }
        j = j + 1;
    }
    v
}

/// Splits the genome sequence into five-nucleotide segments, in order, and
/// looks each one up in the gene map; a segment the map does not bind
/// decodes to absent. The sequence's length must be a multiple of the gene
/// length.
pub fn get_gene_traits_from_genome_sequence(
    genome_sequence: &Sequence,
    gene_map: &GeneMap,
) -> (traits: Vec<Option<GeneTrait>>)
    requires
        genome_sequence@.len() % (GENE_LENGTH as nat) == 0,
    ensures
        traits@.len() == genome_sequence@.len() / (GENE_LENGTH as nat),
        forall|k: int|
            0 <= k < traits@.len() ==> traits@[k] == spec_lookup(
                gene_map@,
                spec_segment(genome_sequence@, k),
            ),
{
    let mut traits: Vec<Option<GeneTrait>> = Vec::new();
    let len = genome_sequence.len();
    let mut i: usize = 0;
    while i < len
        invariant
            len == genome_sequence@.len(),
            len % GENE_LENGTH == 0,
            i % GENE_LENGTH == 0,
            i <= len,
            traits@.len() == i / GENE_LENGTH,
            forall|k: int|
                0 <= k < traits@.len() ==> traits@[k] == spec_lookup(
                    gene_map@,
                    spec_segment(genome_sequence@, k),
                ),
        decreases len - i,
    {
        let segment = copy_segment(genome_sequence, i);
        let gene_trait = gene_map.get(&segment);
        traits.push(gene_trait);
        i = i + GENE_LENGTH;
    }
    traits
}

/// The traits that decoded to a value, in order, absences dropped.
pub open spec fn spec_existing(traits: Seq<Option<GeneTrait>>) -> Seq<GeneTrait>
    decreases traits.len(),
{
    if traits.len() == 0 {
        Seq::empty()
    } else {
        spec_existing(traits.drop_last()) + (match traits.last() {
            Some(t) => seq![t],
            None => Seq::empty(),
        })
    }
}

/// Keeps only the traits that decoded to a value, in order.
pub fn get_only_existing_traits(traits: Vec<Option<GeneTrait>>) -> (r: Vec<GeneTrait>)
    ensures
        r@ == spec_existing(traits@),
{
    let mut result: Vec<GeneTrait> = Vec::new();
    let mut i: usize = 0;
    while i < traits.len()
        invariant
            i <= traits@.len(),
            result@ == spec_existing(traits@.take(i as int)),
        decreases traits@.len() - i,
    {
        match traits[i] {
            Some(t) => {
                result.push(t);
            }
            None => {}
        }
        proof {
            assert(traits@.take(i as int + 1).drop_last() =~= traits@.take(i as int));
            assert(traits@.take(i as int + 1).last() == traits@[i as int]);
        }
        i = i + 1;
    }
    proof {
        assert(traits@.take(traits@.len() as int) =~= traits@);
    }
    result
}

/// The traits a genome decodes to under a gene map: its genes' sequences
/// laid end to end, split into segments, looked up, absences dropped.
pub open spec fn spec_genome_traits(genome: Genome, m: Map<Seq<Nucleotide>, GeneTrait>) -> Seq<
    GeneTrait,
> {
    let s = spec_combined(genome.genes@);
    spec_existing(Seq::new(s.len() / (GENE_LENGTH as nat), |k: int| spec_lookup(m, spec_segment(s, k))))
}

/// The lifespan the first lifespan trait dictates: 100 for long, 50 for
/// medium, 25 for short, and 50 when no lifespan trait exists.
pub open spec fn spec_lifespan_of(traits: Seq<GeneTrait>) -> u32
    decreases traits.len(),
{
    if traits.len() == 0 {
        50
    } else {
        match traits[0] {
            GeneTrait::Lifespan(GeneValue::LongLifespan) => 100,
            GeneTrait::Lifespan(GeneValue::MediumLifespan) => 50,
            GeneTrait::Lifespan(GeneValue::ShortLifespan) => 25,
            _ => spec_lifespan_of(traits.drop_first()),
        }
    }
}

/// The health the first metabolism trait dictates: 100 for high, 50 for
/// medium, 25 for low, and 50 when no metabolism trait exists.
pub open spec fn spec_health_of(traits: Seq<GeneTrait>) -> u32
    decreases traits.len(),
{
    if traits.len() == 0 {
        50
    } else {
        match traits[0] {
            GeneTrait::Metabolism(GeneValue::HighMetabolism) => 100,
            GeneTrait::Metabolism(GeneValue::MediumMetabolism) => 50,
            GeneTrait::Metabolism(GeneValue::LowMetabolism) => 25,
            _ => spec_health_of(traits.drop_first()),
        }
    }
}

/// The lifespan the trait list dictates.
fn lifespan_from_traits(traits: &Vec<GeneTrait>) -> (r: u32)
    ensures
        r == spec_lifespan_of(traits@),
{
    let mut i: usize = 0;
    let mut result: u32 = 50;
    proof {
        assert(traits@.skip(0) =~= traits@);
    }
    while i < traits.len()
        invariant_except_break
            i <= traits@.len(),
            result == 50,
            spec_lifespan_of(traits@) == spec_lifespan_of(traits@.skip(i as int)),
        ensures
            result == spec_lifespan_of(traits@),
        decreases traits@.len() - i,
    {
        proof {
            assert(traits@.skip(i as int)[0] == traits@[i as int]);
            assert(traits@.skip(i as int).drop_first() =~= traits@.skip(i as int + 1));
        }
        match traits[i] {
            GeneTrait::Lifespan(GeneValue::LongLifespan) => {
                result = 100;
                break ;
            }
            GeneTrait::Lifespan(GeneValue::MediumLifespan) => {
                result = 50;
                break ;
            }
            GeneTrait::Lifespan(GeneValue::ShortLifespan) => {
                result = 25;
                break ;
            }
            _ => {}
        }
        i = i + 1;
    }
    result
}

/// The health the trait list dictates.
fn health_from_traits(traits: &Vec<GeneTrait>) -> (r: u32)
    ensures
        r == spec_health_of(traits@),
{
    let mut i: usize = 0;
    let mut result: u32 = 50;
    proof {
        assert(traits@.skip(0) =~= traits@);
    }
    while i < traits.len()
        invariant_except_break
            i <= traits@.len(),
            result == 50,
            spec_health_of(traits@) == spec_health_of(traits@.skip(i as int)),
        ensures
            result == spec_health_of(traits@),
        decreases traits@.len() - i,
    {
        proof {
            assert(traits@.skip(i as int)[0] == traits@[i as int]);
            assert(traits@.skip(i as int).drop_first() =~= traits@.skip(i as int + 1));
        }
        match traits[i] {
            GeneTrait::Metabolism(GeneValue::HighMetabolism) => {
                result = 100;
                break ;
            }
            GeneTrait::Metabolism(GeneValue::MediumMetabolism) => {
                result = 50;
                break ;
            }
            GeneTrait::Metabolism(GeneValue::LowMetabolism) => {
                result = 25;
                break ;
            }
            _ => {}
        }
        i = i + 1;
    }
    result
}

/// Decodes a genome into an organism: lifespan from its first lifespan
/// trait, health from its first metabolism trait (50 each when absent),
/// food 10, age 0. The genome's combined sequence length must be a
/// multiple of the gene length.
pub fn create_organism_based_on_genome(genome: Genome, gene_map: &GeneMap) -> (r: Organism)
    requires
        spec_combined(genome.genes@).len() % (GENE_LENGTH as nat) == 0,
    ensures
        r.genome == genome,
        r.food == 10,
        r.age == 0,
        r.lifespan == spec_lifespan_of(spec_genome_traits(genome, gene_map@)),
        r.health == spec_health_of(spec_genome_traits(genome, gene_map@)),
{
    let genome_sequence = combine_genes_into_one_sequence(&genome.genes);
    let traits = get_gene_traits_from_genome_sequence(&genome_sequence, gene_map);
    proof {
        let s = spec_combined(genome.genes@);
        assert(traits@ =~= Seq::new(
            s.len() / (GENE_LENGTH as nat),
            |k: int| spec_lookup(gene_map@, spec_segment(s, k)),
        ));
    }
    let traits = get_only_existing_traits(traits);

    let lifespan = lifespan_from_traits(&traits);
    let health = health_from_traits(&traits);
    let food: u32 = 10;

    Organism { genome, food, age: 0, health, lifespan }
}

/// Fluent construction of genes, genomes, and organisms over the built-in
/// gene map.
pub struct GeneBuilder {
    pub gene_map: GeneMap,
    pub gene: Gene,
}

impl GeneBuilder {
    /// A builder over the full gene map, holding an empty gene.
    pub fn new() -> (r: GeneBuilder)
        ensures
            r.gene_map@ == gene_map_model(),
            r.gene.sequence@ == Seq::<Nucleotide>::empty(),
    {
        GeneBuilder { gene_map: create_gene_map(), gene: Gene { sequence: Vec::new() } }
    }

    /// A gene read from the text form of its sequence.
    pub fn build_gene_from_sequence(&self, sequence: &str) -> (r: Gene)
        requires
            forall|i: int| 0 <= i < sequence@.len() ==> is_nucleotide_char(#[trigger] sequence@[i]),
        ensures
            r.sequence@ == sequence@.map_values(|c: char| Nucleotide::spec_of_char(c)),
    {
        Gene { sequence: create_sequence_from_str(sequence) }
    }

    /// A copy of the gene the builder currently holds.
    pub fn build_gene(&self) -> (r: Gene)
        ensures
            r.sequence@ == self.gene.sequence@,
    {
        let mut sequence: Vec<Nucleotide> = Vec::new();
        let mut i: usize = 0;
        while i < self.gene.sequence.len()
            invariant
                i <= self.gene.sequence@.len(),
                sequence@ == self.gene.sequence@.take(i as int),
            decreases self.gene.sequence@.len() - i,
        {
            sequence.push(self.gene.sequence[i]);
            proof {
                assert(self.gene.sequence@.take(i as int + 1) =~= self.gene.sequence@.take(
                    i as int,
                ).push(self.gene.sequence@[i as int]));
            }
            i = i + 1;
        }
        proof {
            assert(self.gene.sequence@.take(self.gene.sequence@.len() as int)
                =~= self.gene.sequence@);
        }
        Gene { sequence }
    }

    /// Holds the red color gene, AATTC.
    pub fn red(self) -> (r: GeneBuilder)
        ensures
            r.gene.sequence@ == seq![A, A, T, T, C],
            r.gene_map == self.gene_map,
    {
        GeneBuilder { gene: Gene { sequence: sequence5(A, A, T, T, C) }, ..self }
    }

    /// Holds the green color gene, ATTTC.
    pub fn green(self) -> (r: GeneBuilder)
        ensures
            r.gene.sequence@ == seq![A, T, T, T, C],
            r.gene_map == self.gene_map,
    {
        GeneBuilder { gene: Gene { sequence: sequence5(A, T, T, T, C) }, ..self }
    }

    /// Holds the blue color gene, ATCTC.
    pub fn blue(self) -> (r: GeneBuilder)
        ensures
            r.gene.sequence@ == seq![A, T, C, T, C],
            r.gene_map == self.gene_map,
    {
        GeneBuilder { gene: Gene { sequence: sequence5(A, T, C, T, C) }, ..self }
    }

    /// Holds the yellow color gene, ATGTC.
    pub fn yellow(self) -> (r: GeneBuilder)
        ensures
            r.gene.sequence@ == seq![A, T, G, T, C],
            r.gene_map == self.gene_map,
    {
        GeneBuilder { gene: Gene { sequence: sequence5(A, T, G, T, C) }, ..self }
    }

    /// Holds the purple color gene, ATATC.
    pub fn purple(self) -> (r: GeneBuilder)
        ensures
            r.gene.sequence@ == seq![A, T, A, T, C],
            r.gene_map == self.gene_map,
    {
        GeneBuilder { gene: Gene { sequence: sequence5(A, T, A, T, C) }, ..self }
    }

    /// Holds the small size gene, CCCGT.
    pub fn small(self) -> (r: GeneBuilder)
        ensures
            r.gene.sequence@ == seq![C, C, C, G, T],
            r.gene_map == self.gene_map,
    {
        GeneBuilder { gene: Gene { sequence: sequence5(C, C, C, G, T) }, ..self }
    }

    /// Holds the medium size gene, CCTGT.
    pub fn medium(self) -> (r: GeneBuilder)
        ensures
            r.gene.sequence@ == seq![C, C, T, G, T],
            r.gene_map == self.gene_map,
    {
        GeneBuilder { gene: Gene { sequence: sequence5(C, C, T, G, T) }, ..self }
    }

    /// Holds the large size gene, CCGGT.
    pub fn large(self) -> (r: GeneBuilder)
        ensures
            r.gene.sequence@ == seq![C, C, G, G, T],
            r.gene_map == self.gene_map,
    {
        GeneBuilder { gene: Gene { sequence: sequence5(C, C, G, G, T) }, ..self }
    }

    /// Holds the round shape gene, GGGGA.
    pub fn round(self) -> (r: GeneBuilder)
        ensures
            r.gene.sequence@ == seq![G, G, G, G, A],
            r.gene_map == self.gene_map,
    {
        GeneBuilder { gene: Gene { sequence: sequence5(G, G, G, G, A) }, ..self }
    }

    /// Holds the square shape gene, GGCGA.
    pub fn square(self) -> (r: GeneBuilder)
        ensures
            r.gene.sequence@ == seq![G, G, C, G, A],
            r.gene_map == self.gene_map,
    {
        GeneBuilder { gene: Gene { sequence: sequence5(G, G, C, G, A) }, ..self }
    }

    /// Holds the high temperature-resistance gene, TTTTT.
    pub fn high_temperature_resistance(self) -> (r: GeneBuilder)
        ensures
            r.gene.sequence@ == seq![T, T, T, T, T],
            r.gene_map == self.gene_map,
    {
        GeneBuilder { gene: Gene { sequence: sequence5(T, T, T, T, T) }, ..self }
    }

    /// Holds the medium temperature-resistance gene, TTGTT.
    pub fn medium_temperature_resistance(self) -> (r: GeneBuilder)
        ensures
            r.gene.sequence@ == seq![T, T, G, T, T],
            r.gene_map == self.gene_map,
    {
        GeneBuilder { gene: Gene { sequence: sequence5(T, T, G, T, T) }, ..self }
    }

    /// Holds the low temperature-resistance gene, TTATT.
    pub fn low_temperature_resistance(self) -> (r: GeneBuilder)
        ensures
            r.gene.sequence@ == seq![T, T, A, T, T],
            r.gene_map == self.gene_map,
    {
        GeneBuilder { gene: Gene { sequence: sequence5(T, T, A, T, T) }, ..self }
    }

    /// Holds the no temperature-resistance gene, TTAAT.
    pub fn no_temperature_resistance(self) -> (r: GeneBuilder)
        ensures
            r.gene.sequence@ == seq![T, T, A, A, T],
            r.gene_map == self.gene_map,
    {
        GeneBuilder { gene: Gene { sequence: sequence5(T, T, A, A, T) }, ..self }
    }

    /// Holds the high water-resistance gene, AAAAA.
    pub fn high_water_resistance(self) -> (r: GeneBuilder)
        ensures
            r.gene.sequence@ == seq![A, A, A, A, A],
            r.gene_map == self.gene_map,
    {
        GeneBuilder { gene: Gene { sequence: sequence5(A, A, A, A, A) }, ..self }
    }

    /// Holds the no water-resistance gene, AAATA.
    pub fn no_water_resistance(self) -> (r: GeneBuilder)
        ensures
            r.gene.sequence@ == seq![A, A, A, T, A],
            r.gene_map == self.gene_map,
    {
        GeneBuilder { gene: Gene { sequence: sequence5(A, A, A, T, A) }, ..self }
    }

    /// Holds the high metabolism gene, GCGCG.
    pub fn high_metabolism(self) -> (r: GeneBuilder)
        ensures
            r.gene.sequence@ == seq![G, C, G, C, G],
            r.gene_map == self.gene_map,
    {
        GeneBuilder { gene: Gene { sequence: sequence5(G, C, G, C, G) }, ..self }
    }

    /// Holds the medium metabolism gene, GCGTG.
    pub fn medium_metabolism(self) -> (r: GeneBuilder)
        ensures
            r.gene.sequence@ == seq![G, C, G, T, G],
            r.gene_map == self.gene_map,
    {
        GeneBuilder { gene: Gene { sequence: sequence5(G, C, G, T, G) }, ..self }
    }

    /// Holds the low metabolism gene, GCGAG.
    pub fn low_metabolism(self) -> (r: GeneBuilder)
        ensures
            r.gene.sequence@ == seq![G, C, G, A, G],
            r.gene_map == self.gene_map,
    {
        GeneBuilder { gene: Gene { sequence: sequence5(G, C, G, A, G) }, ..self }
    }

    /// Holds the high speed gene, TTTTT.
    pub fn high_speed(self) -> (r: GeneBuilder)
        ensures
            r.gene.sequence@ == seq![T, T, T, T, T],
            r.gene_map == self.gene_map,
    {
        GeneBuilder { gene: Gene { sequence: sequence5(T, T, T, T, T) }, ..self }
    }

    /// Holds the medium speed gene, TTGTT.
    pub fn medium_speed(self) -> (r: GeneBuilder)
        ensures
            r.gene.sequence@ == seq![T, T, G, T, T],
            r.gene_map == self.gene_map,
    {
        GeneBuilder { gene: Gene { sequence: sequence5(T, T, G, T, T) }, ..self }
    }

    /// Holds the low speed gene, TTATT.
    pub fn low_speed(self) -> (r: GeneBuilder)
        ensures
            r.gene.sequence@ == seq![T, T, A, T, T],
            r.gene_map == self.gene_map,
    {
        GeneBuilder { gene: Gene { sequence: sequence5(T, T, A, T, T) }, ..self }
    }

    /// Holds the no speed gene, TTAAT.
    pub fn no_speed(self) -> (r: GeneBuilder)
        ensures
            r.gene.sequence@ == seq![T, T, A, A, T],
            r.gene_map == self.gene_map,
    {
        GeneBuilder { gene: Gene { sequence: sequence5(T, T, A, A, T) }, ..self }
    }

    /// Holds the high breeding-rate gene, CCCCC.
    pub fn high_breeding_rate(self) -> (r: GeneBuilder)
        ensures
            r.gene.sequence@ == seq![C, C, C, C, C],
            r.gene_map == self.gene_map,
    {
        GeneBuilder { gene: Gene { sequence: sequence5(C, C, C, C, C) }, ..self }
    }

    /// Holds the medium breeding-rate gene, CCCTC.
    pub fn medium_breeding_rate(self) -> (r: GeneBuilder)
        ensures
            r.gene.sequence@ == seq![C, C, C, T, C],
            r.gene_map == self.gene_map,
    {
        GeneBuilder { gene: Gene { sequence: sequence5(C, C, C, T, C) }, ..self }
    }

    /// Holds the low breeding-rate gene, CCCAC.
    pub fn low_breeding_rate(self) -> (r: GeneBuilder)
        ensures
            r.gene.sequence@ == seq![C, C, C, A, C],
            r.gene_map == self.gene_map,
    {
        GeneBuilder { gene: Gene { sequence: sequence5(C, C, C, A, C) }, ..self }
    }

    /// Holds the no breeding-rate gene, CCCAA.
    pub fn no_breeding_rate(self) -> (r: GeneBuilder)
        ensures
            r.gene.sequence@ == seq![C, C, C, A, A],
            r.gene_map == self.gene_map,
    {
        GeneBuilder { gene: Gene { sequence: sequence5(C, C, C, A, A) }, ..self }
    }

    /// Holds the long lifespan gene, GGGGG.
    pub fn long_lifespan(self) -> (r: GeneBuilder)
        ensures
            r.gene.sequence@ == seq![G, G, G, G, G],
            r.gene_map == self.gene_map,
    {
        GeneBuilder { gene: Gene { sequence: sequence5(G, G, G, G, G) }, ..self }
    }

    /// Holds the medium lifespan gene, GGCGG.
    pub fn medium_lifespan(self) -> (r: GeneBuilder)
        ensures
            r.gene.sequence@ == seq![G, G, C, G, G],
            r.gene_map == self.gene_map,
    {
        GeneBuilder { gene: Gene { sequence: sequence5(G, G, C, G, G) }, ..self }
    }

    /// Holds the short lifespan gene, GGAGG.
    pub fn short_lifespan(self) -> (r: GeneBuilder)
        ensures
            r.gene.sequence@ == seq![G, G, A, G, G],
            r.gene_map == self.gene_map,
    {
        GeneBuilder { gene: Gene { sequence: sequence5(G, G, A, G, G) }, ..self }
    }

    /// Genes read from the text forms of their sequences, in order.
    pub fn build_genes_from_sequences(&self, sequences: Vec<&str>) -> (r: Vec<Gene>)
        requires
            forall|i: int, j: int|
                0 <= i < sequences@.len() && 0 <= j < sequences@[i]@.len()
                    ==> is_nucleotide_char(#[trigger] sequences@[i]@[j]),
        ensures
            r@.len() == sequences@.len(),
            forall|i: int|
                0 <= i < r@.len() ==> #[trigger] r@[i].sequence@ == sequences@[i]@.map_values(
                    |c: char| Nucleotide::spec_of_char(c),
                ),
    {
        let mut genes: Vec<Gene> = Vec::new();
        let mut i: usize = 0;
        while i < sequences.len()
            invariant
                i <= sequences@.len(),
                forall|k: int, j: int|
                    0 <= k < sequences@.len() && 0 <= j < sequences@[k]@.len()
                        ==> is_nucleotide_char(#[trigger] sequences@[k]@[j]),
                genes@.len() == i,
                forall|k: int|
                    0 <= k < i ==> #[trigger] genes@[k].sequence@ == sequences@[k]@.map_values(
                        |c: char| Nucleotide::spec_of_char(c),
                    ),
            decreases sequences@.len() - i,
        {
            let gene = self.build_gene_from_sequence(sequences[i]);
            genes.push(gene);
            i = i + 1;
        }
        genes
    }

    /// A genome over the given genes.
    pub fn build_genome(&self, genes: Vec<Gene>) -> (r: Genome)
        ensures
            r.genes == genes,
    {
        Genome { genes }
    }

    /// The organism the genome decodes to under the builder's gene map.
    pub fn build_organism(&self, genome: Genome) -> (r: Organism)
        requires
            spec_combined(genome.genes@).len() % (GENE_LENGTH as nat) == 0,
        ensures
            r.genome == genome,
            r.food == 10,
            r.age == 0,
            r.lifespan == spec_lifespan_of(spec_genome_traits(genome, self.gene_map@)),
            r.health == spec_health_of(spec_genome_traits(genome, self.gene_map@)),
    {
        create_organism_based_on_genome(genome, &self.gene_map)
    }
}

} // verus!
