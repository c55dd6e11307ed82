//! The value-level ledger model: out-points, cells, and the unsigned
//! transaction skeleton that the assembler and the balancer work on.

use vstd::prelude::*;

use crate::script::Script;
use crate::script::ScriptModel;

verus! {

/// A reference to a previously created cell: creating transaction and index.
#[derive(Clone, Debug)]
pub struct OutPoint {
    pub tx_hash: Vec<u8>,
    pub index: u32,
}

/// The mathematical value of an [`OutPoint`].
#[verifier::ext_equal]
pub ghost struct OutPointModel {
    pub tx_hash: Seq<u8>,
    pub index: u32,
}

impl View for OutPoint {
    type V = OutPointModel;

    open spec fn view(&self) -> OutPointModel {
        OutPointModel { tx_hash: self.tx_hash@, index: self.index }
    }
}

/// How a dependency's bytes are found: directly, or through a group cell.
#[derive(Clone, Copy, Debug, PartialEq, Eq, Structural)]
pub enum DepKind {
    Code,
    Group,
}

/// A code dependency the transaction needs at validation time.
#[derive(Clone, Debug)]
pub struct CellDep {
    pub out_point: OutPoint,
    pub kind: DepKind,
}

/// The mathematical value of a [`CellDep`].
#[verifier::ext_equal]
pub ghost struct CellDepModel {
    pub out_point: OutPointModel,
    pub kind: DepKind,
}

impl View for CellDep {
    type V = CellDepModel;

    open spec fn view(&self) -> CellDepModel {
        CellDepModel { out_point: self.out_point@, kind: self.kind }
    }
}

/// A consumed cell reference inside a transaction.
#[derive(Clone, Debug)]
pub struct CellInput {
    pub previous_output: OutPoint,
    pub since: u64,
}

/// The mathematical value of a [`CellInput`].
#[verifier::ext_equal]
pub ghost struct CellInputModel {
    pub previous_output: OutPointModel,
    pub since: u64,
}

impl View for CellInput {
    type V = CellInputModel;

    open spec fn view(&self) -> CellInputModel {
        CellInputModel { previous_output: self.previous_output@, since: self.since }
    }
}

/// A produced cell: native-coin capacity, owning lock, optional type identifier.
#[derive(Clone, Debug)]
pub struct CellOutput {
    pub capacity: u64,
    pub lock: Script,
    pub type_script: Option<Script>,
}

/// The mathematical value of a [`CellOutput`].
#[verifier::ext_equal]
pub ghost struct CellOutputModel {
    pub capacity: u64,
    pub lock: ScriptModel,
    pub type_script: Option<ScriptModel>,
}

/// The value of an optional script.
pub open spec fn opt_script_model(o: Option<Script>) -> Option<ScriptModel> {
    match o {
        Some(s) => Some(s@),
        None => None,
    }
}

impl View for CellOutput {
    type V = CellOutputModel;

    open spec fn view(&self) -> CellOutputModel {
        CellOutputModel {
            capacity: self.capacity,
            lock: self.lock@,
            type_script: opt_script_model(self.type_script),
        }
    }
}

/// A live cell as the external indexer reports it.
#[derive(Clone, Debug)]
pub struct Cell {
    pub out_point: OutPoint,
    pub output: CellOutput,
    pub data: Vec<u8>,
}

/// The mathematical value of a [`Cell`].
#[verifier::ext_equal]
pub ghost struct CellModel {
    pub out_point: OutPointModel,
    pub output: CellOutputModel,
    pub data: Seq<u8>,
}

impl View for Cell {
    type V = CellModel;

    open spec fn view(&self) -> CellModel {
        CellModel { out_point: self.out_point@, output: self.output@, data: self.data@ }
    }
}

/// An unsigned transaction skeleton: dependency references, consumed inputs,
/// and produced outputs with their payloads, all in significant order.
#[derive(Clone, Debug)]
pub struct TxSkeleton {
    pub cell_deps: Vec<CellDep>,
    pub inputs: Vec<CellInput>,
    pub outputs: Vec<CellOutput>,
    pub outputs_data: Vec<Vec<u8>>,
}

/// The mathematical value of a [`TxSkeleton`].
#[verifier::ext_equal]
pub ghost struct TxModel {
    pub cell_deps: Seq<CellDepModel>,
    pub inputs: Seq<CellInputModel>,
    pub outputs: Seq<CellOutputModel>,
    pub outputs_data: Seq<Seq<u8>>,
}

impl TxModel {
    /// Outputs and their payloads stand in parallel positions.
    pub open spec fn wf(self) -> bool {
        self.outputs.len() == self.outputs_data.len()
    }
}

impl View for TxSkeleton {
    type V = TxModel;

    open spec fn view(&self) -> TxModel {
        TxModel {
            cell_deps: self.cell_deps@.map_values(|d: CellDep| d@),
            inputs: self.inputs@.map_values(|i: CellInput| i@),
            outputs: self.outputs@.map_values(|o: CellOutput| o@),
            outputs_data: self.outputs_data@.map_values(|d: Vec<u8>| d@),
        }
    }
}

/// Mapping a value-wise view distributes over appending one element.
pub proof fn lemma_map_values_push<A, B>(s: Seq<A>, f: spec_fn(A) -> B, x: A)
    ensures
        s.push(x).map_values(f) == s.map_values(f).push(f(x)),
{
    assert(s.push(x).map_values(f) =~= s.map_values(f).push(f(x)));
}

} // verus!
