//! The certificate table: typed entries, the page-aligned capacity that is
//! declared for them, and the order in which a fetched table is written out.

use vstd::prelude::*;

verus! {

/// Size of a hardware page; the declared capacity is a multiple of it.
pub const PAGE_SIZE: usize = 4096;

/// The byte total of a table must stay below this bound, so that its
/// capacity still fits in the 32-bit field that the firmware reads.
pub const MAX_CERT_BYTES: usize = 0xFFFF_F000;

/// The role of a certificate in a table entry.
#[derive(Clone, Copy, Debug, PartialEq, Eq, Structural)]
pub enum CertType {
    /// AMD Root Key.
    Ark,
    /// AMD Signing Key.
    Ask,
    /// Versioned Chip Endorsement Key.
    Vcek,
    /// Any other certificate, by its GUID as a 128-bit number.
    Other(u128),
    /// The empty entry that closes a table.
    Empty,
}

/// One certificate of a table: its role and its raw bytes.
#[derive(Clone, Debug)]
pub struct CertEntry {
    pub cert_type: CertType,
    pub data: Vec<u8>,
}

/// What is exchanged with the firmware: the certificate table, if any, and
/// the capacity declared for it in bytes. A separate configuration blob is
/// never sent by this library, so it has no field here.
#[derive(Clone, Debug)]
pub struct ExtConfig {
    pub certs: Option<Vec<CertEntry>>,
    pub certs_len: u32,
}

/// The three certificates that this library writes out.
#[derive(Clone, Copy, Debug, PartialEq, Eq, Structural)]
pub enum Dest {
    Ark,
    Ask,
    Vcek,
}

/// The capacity declared for `raw` bytes of certificates: one page for less
/// than a page, else the page boundary that follows `raw`, also where `raw`
/// is already on a boundary.
pub open spec fn page_capacity(raw: int) -> int {
    if raw < 4096 {
        4096
    } else {
        (raw / 4096 + 1) * 4096
    }
}

/// Whether `m` is a whole number of pages.
pub open spec fn is_page_multiple(m: int) -> bool {
    m % 4096 == 0
}

/// The output that receives entries of type `t`, if any.
pub open spec fn dest_of(t: CertType) -> Option<Dest> {
    match t {
        CertType::Ark => Some(Dest::Ark),
        CertType::Ask => Some(Dest::Ask),
        CertType::Vcek => Some(Dest::Vcek),
        _ => None,
    }
}

/// The certificate type that goes to output `d`.
pub open spec fn type_of(d: Dest) -> CertType {
    match d {
        Dest::Ark => CertType::Ark,
        Dest::Ask => CertType::Ask,
        Dest::Vcek => CertType::Vcek,
    }
}

/// The sum of the lengths of three byte sequences.
pub open spec fn total_len(ark: Seq<u8>, ask: Seq<u8>, vcek: Seq<u8>) -> nat {
    ark.len() + ask.len() + vcek.len()
}

/// `c` holds exactly the three certificates, as entries of type `Ark`,
/// `Ask` and `Vcek` in that order, with the capacity that their byte total
/// calls for.
pub open spec fn is_table_of(c: ExtConfig, ark: Seq<u8>, ask: Seq<u8>, vcek: Seq<u8>) -> bool {
    &&& c.certs is Some
    &&& c.certs->0@.len() == 3
    &&& c.certs->0@[0].cert_type == CertType::Ark
    &&& c.certs->0@[0].data@ == ark
    &&& c.certs->0@[1].cert_type == CertType::Ask
    &&& c.certs->0@[1].data@ == ask
    &&& c.certs->0@[2].cert_type == CertType::Vcek
    &&& c.certs->0@[2].data@ == vcek
    &&& c.certs_len == page_capacity(total_len(ark, ask, vcek) as int)
}

/// Computes the capacity to declare for `raw` bytes of certificates.
pub fn table_capacity(raw: usize) -> (r: u32)
    requires
        raw < MAX_CERT_BYTES,
    ensures
        r == page_capacity(raw as int),
{
    if raw < PAGE_SIZE {
        4096
    } else {
        let pages: usize = raw / PAGE_SIZE;
        assert(pages <= 1048574) by (nonlinear_arith)
            requires
                pages == raw / 4096,
                raw < 0xFFFF_F000,
        ;
        assert((pages + 1) * 4096 <= 0xFFFF_F000) by (nonlinear_arith)
            requires
                pages <= 1048574,
        ;
        ((pages + 1) * PAGE_SIZE) as u32
    }
}

/// Assembles the table for three certificates: entries of type `Ark`, `Ask`
/// and `Vcek` in that order, each owning the bytes it was given, and the
/// capacity that their byte total calls for.
pub fn build(ark: Vec<u8>, ask: Vec<u8>, vcek: Vec<u8>) -> (r: ExtConfig)
    requires
        total_len(ark@, ask@, vcek@) < MAX_CERT_BYTES,
    ensures
        is_table_of(r, ark@, ask@, vcek@),
{
    let size: usize = ark.len() + ask.len() + vcek.len();
    let mut entries: Vec<CertEntry> = Vec::new();
    entries.push(CertEntry { cert_type: CertType::Ark, data: ark });
    entries.push(CertEntry { cert_type: CertType::Ask, data: ask });
    entries.push(CertEntry { cert_type: CertType::Vcek, data: vcek });
    ExtConfig { certs: Some(entries), certs_len: table_capacity(size) }
}

/// Below one page of certificates, one page is declared.
pub proof fn lemma_capacity_below_page(a: nat, b: nat, c: nat)
    requires
        a + b + c < 4096,
    ensures
        page_capacity((a + b + c) as int) == 4096,
{
}

/// A byte total already on a page boundary still gets one more page.
pub proof fn lemma_capacity_on_boundary(a: nat, b: nat, c: nat)
    requires
        (a + b + c) % 4096 == 0,
    ensures
        page_capacity((a + b + c) as int) == a + b + c + 4096,
{
    let raw = a + b + c;
    assert(raw == (raw / 4096) * 4096) by (nonlinear_arith)
        requires
            raw % 4096 == 0,
    ;
    assert((raw / 4096 + 1) * 4096 == raw + 4096) by (nonlinear_arith)
        requires
            raw == (raw / 4096) * 4096,
    ;
}

/// Off a page boundary, from one page up, the capacity is the smallest
/// multiple of the page size that is strictly greater than the byte total.
pub proof fn lemma_capacity_next_boundary(a: nat, b: nat, c: nat)
    requires
        (a + b + c) % 4096 != 0,
        a + b + c >= 4096,
    ensures
        is_page_multiple(page_capacity((a + b + c) as int)),
        page_capacity((a + b + c) as int) > a + b + c,
        forall|m: int|
            #[trigger] is_page_multiple(m) && m > a + b + c ==> m >= page_capacity(
                (a + b + c) as int,
            ),
{
    let raw = a + b + c;
    let q = raw / 4096;
    assert(raw == q * 4096 + raw % 4096) by (nonlinear_arith)
        requires
            q == raw / 4096,
    ;
    assert((q + 1) * 4096 % 4096 == 0) by (nonlinear_arith);
    assert forall|m: int| is_page_multiple(m) && m > raw implies m >= (q + 1) * 4096 by {
        assert(m == (m / 4096) * 4096) by (nonlinear_arith)
            requires
                m % 4096 == 0,
        ;
        assert(m / 4096 > q) by (nonlinear_arith)
            requires
                m == (m / 4096) * 4096,
                m > raw,
                raw == q * 4096 + raw % 4096,
                0 <= raw % 4096 < 4096,
        ;
        assert(m >= (q + 1) * 4096) by (nonlinear_arith)
            requires
                m == (m / 4096) * 4096,
                m / 4096 >= q + 1,
        ;
    }
}

/// Why a certificate operation failed.
#[derive(Clone, Copy, Debug, PartialEq, Eq, Structural)]
pub enum CertsError {
    /// The source file of this certificate could not be read.
    FileRead(Dest),
    /// The output of this certificate could not be created or written.
    FileWrite(Dest),
    /// The firmware call failed.
    Channel(Operation),
    /// The firmware answered without a certificate table.
    MissingTable,
    /// The certificates hold too many bytes for the capacity field.
    TableTooLarge,
}

/// A step of the exchange with the firmware.
#[derive(Clone, Copy, Debug, PartialEq, Eq, Structural)]
pub enum Operation {
    Open,
    Submit,
    Fetch,
}

/// One planned write: the bytes that an output receives.
#[derive(Clone, Debug)]
pub struct Write {
    pub dest: Dest,
    pub data: Vec<u8>,
}

/// The writes that a fetched table calls for, in table order: one for each
/// entry of a recognised type, none for the others.
pub open spec fn planned(entries: Seq<CertEntry>) -> Seq<(Dest, Seq<u8>)>
    decreases entries.len(),
{
    if entries.len() == 0 {
        Seq::empty()
    } else {
        let rest = planned(entries.drop_last());
        match dest_of(entries.last().cert_type) {
            Some(d) => rest.push((d, entries.last().data@)),
            None => rest,
        }
    }
}

/// The plan as pairs of output and bytes.
pub open spec fn plan_view(plan: Seq<Write>) -> Seq<(Dest, Seq<u8>)> {
    plan.map_values(|w: Write| (w.dest, w.data@))
}

/// The output that receives entries of type `t`, if any.
pub fn destination(t: &CertType) -> (r: Option<Dest>)
    ensures
        r == dest_of(*t),
{
    match t {
        CertType::Ark => Some(Dest::Ark),
        CertType::Ask => Some(Dest::Ask),
        CertType::Vcek => Some(Dest::Vcek),
        _ => None,
    }
}

/// Lists the writes for a fetched table: each entry of a recognised type, in
/// the order of the table, to the output of its type; other entries are
/// skipped.
pub fn write_plan(certs: &Vec<CertEntry>) -> (r: Vec<Write>)
    ensures
        plan_view(r@) == planned(certs@),
{
    let mut plan: Vec<Write> = Vec::new();
    let mut i: usize = 0;
    while i < certs.len()
        invariant
            i <= certs.len(),
            plan_view(plan@) == planned(certs@.take(i as int)),
        decreases certs.len() - i,
    {
        let entry = &certs[i];
        assert(certs@.take(i + 1).drop_last() == certs@.take(i as int));
        match destination(&entry.cert_type) {
            Some(d) => {
                let data = entry.data.clone();
                assert(data@ == entry.data@);
                plan.push(Write { dest: d, data });
                assert(plan_view(plan@) == plan_view(plan@.drop_last()).push(
                    (d, entry.data@),
                ));
            },
            None => {},
        }
        i = i + 1;
    }
    assert(certs@.take(certs.len() as int) == certs@);
    plan
}

/// The table of a fetched configuration, or `MissingTable` where it has
/// none; an empty table is a table.
pub fn fetched_certs(config: ExtConfig) -> (r: Result<Vec<CertEntry>, CertsError>)
    ensures
        config.certs is None <==> r == Err::<Vec<CertEntry>, CertsError>(CertsError::MissingTable),
        config.certs is Some ==> r == Ok::<Vec<CertEntry>, CertsError>(config.certs->0),
{
    match config.certs {
        Some(certs) => Ok(certs),
        None => Err(CertsError::MissingTable),
    }
}

/// The plan of two tables one after the other is the plan of the first
/// followed by the plan of the second.
pub proof fn lemma_planned_concat(a: Seq<CertEntry>, b: Seq<CertEntry>)
    ensures
        planned(a + b) == planned(a) + planned(b),
    decreases b.len(),
{
    if b.len() == 0 {
        assert(a + b == a);
        assert(planned(b) == Seq::<(Dest, Seq<u8>)>::empty());
        assert(planned(a) + planned(b) == planned(a));
    } else {
        lemma_planned_concat(a, b.drop_last());
        assert((a + b).drop_last() == a + b.drop_last());
        assert((a + b).last() == b.last());
        match dest_of(b.last().cert_type) {
            Some(d) => {
                assert(planned(a) + planned(b.drop_last()).push((d, b.last().data@)) == (
                planned(a) + planned(b.drop_last())).push((d, b.last().data@)));
            },
            None => {},
        }
    }
}

/// An entry of a type that has no output adds no write, wherever it stands
/// in the table, and takes none away.
pub proof fn lemma_unrecognised_skipped(entries: Seq<CertEntry>, k: int, extra: CertEntry)
    requires
        0 <= k <= entries.len(),
        dest_of(extra.cert_type) is None,
    ensures
        planned(entries.insert(k, extra)) == planned(entries),
{
    let front = entries.take(k);
    let back = entries.skip(k);
    assert(entries.insert(k, extra) == front + seq![extra] + back);
    assert(entries == front + back);
    lemma_planned_concat(front + seq![extra], back);
    lemma_planned_concat(front, seq![extra]);
    lemma_planned_concat(front, back);
    assert(seq![extra].drop_last() == Seq::<CertEntry>::empty());
    assert(seq![extra].last() == extra);
    assert(planned(Seq::<CertEntry>::empty()) == Seq::<(Dest, Seq<u8>)>::empty());
    assert(planned(seq![extra]) == Seq::<(Dest, Seq<u8>)>::empty());
    assert(planned(front) + Seq::<(Dest, Seq<u8>)>::empty() == planned(front));
}

/// A table built from three certificates and read back unchanged writes each
/// certificate's bytes, and nothing else, to its own output, in the order
/// root key, signing key, endorsement key.
pub proof fn lemma_build_then_plan(
    table: ExtConfig,
    ark: Seq<u8>,
    ask: Seq<u8>,
    vcek: Seq<u8>,
)
    requires
        is_table_of(table, ark, ask, vcek),
    ensures
        planned(table.certs->0@) == seq![(Dest::Ark, ark), (Dest::Ask, ask), (Dest::Vcek, vcek)],
{
    let entries = table.certs->0@;
    let e1 = entries.drop_last();
    let e0 = e1.drop_last();
    let e = e0.drop_last();
    assert(e.len() == 0);
    assert(planned(e) == Seq::<(Dest, Seq<u8>)>::empty());
    assert(e0.last() == entries[0]);
    assert(e1.last() == entries[1]);
    assert(planned(e0) == seq![(Dest::Ark, ark)]);
    assert(planned(e1) == seq![(Dest::Ark, ark), (Dest::Ask, ask)]);
}

} // verus!
