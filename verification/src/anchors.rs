//! The fixed anchor table: known (user id, registration epoch-millis) pairs,
//! kept sorted ascending by user id, that the age estimator interpolates
//! between.

use vstd::prelude::*;

verus! {

/// Upper bound on anchor timestamps: they must fit a signed 64-bit value so
/// that a calendar conversion can take them.
pub const MS_BOUND: u64 = 0x8000_0000_0000_0000;

/// The anchor pairs, sorted ascending by user id.
pub open spec fn anchor_seq() -> Seq<(u64, u64)> {
    seq![
        (2768409u64, 1383264000000u64),
        (7679610u64, 1388448000000u64),
        (11538514u64, 1391212000000u64),
        (15835244u64, 1392940000000u64),
        (23646077u64, 1393459000000u64),
        (38015510u64, 1393632000000u64),
        (44634663u64, 1399334000000u64),
        (46145305u64, 1400198000000u64),
        (54845238u64, 1411257000000u64),
        (63263518u64, 1414454000000u64),
        (101260938u64, 1425600000000u64),
        (101323197u64, 1426204000000u64),
        (103151531u64, 1433376000000u64),
        (103258382u64, 1432771000000u64),
        (109393468u64, 1439078000000u64),
        (111220210u64, 1429574000000u64),
        (112594714u64, 1439683000000u64),
        (116812045u64, 1437696000000u64),
        (122600695u64, 1437782000000u64),
        (124872445u64, 1439856000000u64),
        (125828524u64, 1444003000000u64),
        (130029930u64, 1441324000000u64),
        (133909606u64, 1444176000000u64),
        (143445125u64, 1448928000000u64),
        (148670295u64, 1452211000000u64),
        (152079341u64, 1453420000000u64),
        (157242073u64, 1446768000000u64),
        (171295414u64, 1457481000000u64),
        (181783990u64, 1460246000000u64),
        (222021233u64, 1465344000000u64),
        (225034354u64, 1466208000000u64),
        (278941742u64, 1473465000000u64),
        (285253072u64, 1476835000000u64),
        (294851037u64, 1479600000000u64),
        (297621225u64, 1481846000000u64),
        (328594461u64, 1482969000000u64),
        (337808429u64, 1487707000000u64),
        (341546272u64, 1487782000000u64),
        (352940995u64, 1487894000000u64),
        (369669043u64, 1490918000000u64),
        (400169472u64, 1501459000000u64),
        (805158066u64, 1563208000000u64),
        (1974255900u64, 1634000000000u64),
    ]
}

/// User ids strictly ascend across the whole sequence.
pub open spec fn ids_strictly_ascend(s: Seq<(u64, u64)>) -> bool {
    forall|i: int, j: int| 0 <= i < j < s.len() ==> s[i].0 < s[j].0
}

/// Every timestamp in the sequence is below `MS_BOUND`.
pub open spec fn ms_in_range(s: Seq<(u64, u64)>) -> bool {
    forall|i: int| 0 <= i < s.len() ==> (#[trigger] s[i]).1 < MS_BOUND
}

/// A well-formed table: ids strictly ascending, timestamps in range.
pub open spec fn table_wf(s: Seq<(u64, u64)>) -> bool {
    ids_strictly_ascend(s) && ms_in_range(s)
}

/// Adjacent-pair form of well-formedness from a position on, written
/// recursively so it can be unfolded on the concrete table.
pub open spec fn table_chain_from(s: Seq<(u64, u64)>, i: int) -> bool
    decreases s.len() - i,
{
    i >= s.len() || (s[i].1 < MS_BOUND && (i + 1 >= s.len() || (s[i].0 < s[i + 1].0
        && table_chain_from(s, i + 1))))
}

proof fn lemma_chain_implies_wf(s: Seq<(u64, u64)>, i: int)
    requires
        0 <= i,
        table_chain_from(s, i),
    ensures
        forall|p: int, q: int| i <= p < q < s.len() ==> s[p].0 < s[q].0,
        forall|p: int| i <= p < s.len() ==> (#[trigger] s[p]).1 < MS_BOUND,
    decreases s.len() - i,
{
    if i < s.len() {
        lemma_chain_implies_wf(s, i + 1);
        assert forall|p: int, q: int| i <= p < q < s.len() implies s[p].0 < s[q].0 by {
            if p == i && q > i + 1 {
                assert(s[i + 1].0 < s[q].0);
            }
        }
    }
}

/// The concrete table is well formed.
pub proof fn lemma_anchor_seq_wf()
    ensures
        table_wf(anchor_seq()),
        anchor_seq().len() == 43,
{
    reveal_with_fuel(table_chain_from, 45);
    assert(table_chain_from(anchor_seq(), 0));
    lemma_chain_implies_wf(anchor_seq(), 0);
}

/// The anchor data as a vector sorted ascending by user id.
pub fn get_age_data() -> (v: Vec<(u64, u64)>)
    ensures
        v@ == anchor_seq(),
        table_wf(v@),
{
    let mut v: Vec<(u64, u64)> = Vec::new();
    v.push((2768409u64, 1383264000000u64));
    v.push((7679610u64, 1388448000000u64));
    v.push((11538514u64, 1391212000000u64));
    v.push((15835244u64, 1392940000000u64));
    v.push((23646077u64, 1393459000000u64));
    v.push((38015510u64, 1393632000000u64));
    v.push((44634663u64, 1399334000000u64));
    v.push((46145305u64, 1400198000000u64));
    v.push((54845238u64, 1411257000000u64));
    v.push((63263518u64, 1414454000000u64));
    v.push((101260938u64, 1425600000000u64));
    v.push((101323197u64, 1426204000000u64));
    v.push((103151531u64, 1433376000000u64));
    v.push((103258382u64, 1432771000000u64));
    v.push((109393468u64, 1439078000000u64));
    v.push((111220210u64, 1429574000000u64));
    v.push((112594714u64, 1439683000000u64));
    v.push((116812045u64, 1437696000000u64));
    v.push((122600695u64, 1437782000000u64));
    v.push((124872445u64, 1439856000000u64));
    v.push((125828524u64, 1444003000000u64));
    v.push((130029930u64, 1441324000000u64));
    v.push((133909606u64, 1444176000000u64));
    v.push((143445125u64, 1448928000000u64));
    v.push((148670295u64, 1452211000000u64));
    v.push((152079341u64, 1453420000000u64));
    v.push((157242073u64, 1446768000000u64));
    v.push((171295414u64, 1457481000000u64));
    v.push((181783990u64, 1460246000000u64));
    v.push((222021233u64, 1465344000000u64));
    v.push((225034354u64, 1466208000000u64));
    v.push((278941742u64, 1473465000000u64));
    v.push((285253072u64, 1476835000000u64));
    v.push((294851037u64, 1479600000000u64));
    v.push((297621225u64, 1481846000000u64));
    v.push((328594461u64, 1482969000000u64));
    v.push((337808429u64, 1487707000000u64));
    v.push((341546272u64, 1487782000000u64));
    v.push((352940995u64, 1487894000000u64));
    v.push((369669043u64, 1490918000000u64));
    v.push((400169472u64, 1501459000000u64));
    v.push((805158066u64, 1563208000000u64));
    v.push((1974255900u64, 1634000000000u64));
    proof {
        assert(v@ =~= anchor_seq());
        lemma_anchor_seq_wf();
    }
    v
}

/// The immutable anchor table the estimator reads: built once at startup,
/// never changed afterwards.
pub struct AnchorTable {
    pairs: Vec<(u64, u64)>,
}

impl View for AnchorTable {
    type V = Seq<(u64, u64)>;

    closed spec fn view(&self) -> Seq<(u64, u64)> {
        self.pairs@
    }
}

impl AnchorTable {
    /// The table's invariant: sorted ascending by id, timestamps in range.
    pub open spec fn wf(&self) -> bool {
        table_wf(self@)
    }

    /// Builds the fixed table.
    pub fn new() -> (t: AnchorTable)
        ensures
            t.wf(),
            t@ == anchor_seq(),
    {
        AnchorTable { pairs: get_age_data() }
    }

    /// Number of anchors.
    pub fn len(&self) -> (n: usize)
        ensures
            n == self@.len(),
    {
        self.pairs.len()
    }

    /// The anchor pair at a position.
    pub fn pair_at(&self, i: usize) -> (p: (u64, u64))
        requires
            i < self@.len(),
        ensures
            p == self@[i as int],
    {
        let p = self.pairs[i];
        p
    }
}

} // verus!
