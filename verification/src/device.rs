//! Device directory records and the dispatch targets derived from them.

use vstd::prelude::*;
use vstd::string::StringExecFns;

verus! {

/// One row of the device directory: an opaque per-network host suffix and a
/// human-readable label.
pub struct DeviceRecord {
    pub host_id: String,
    pub name: String,
}

/// Mathematical model of a `DeviceRecord`.
pub struct DeviceRecordModel {
    pub host_id: Seq<char>,
    pub name: Seq<char>,
}

impl View for DeviceRecord {
    type V = DeviceRecordModel;

    open spec fn view(&self) -> DeviceRecordModel {
        DeviceRecordModel { host_id: self.host_id@, name: self.name@ }
    }
}

/// A fully-qualified dispatch destination: the transport address string and
/// the device's label, carried along for audit messages.
pub struct DeviceTarget {
    pub address: String,
    pub name: String,
}

/// Mathematical model of a `DeviceTarget`.
pub struct DeviceTargetModel {
    pub address: Seq<char>,
    pub name: Seq<char>,
}

impl View for DeviceTarget {
    type V = DeviceTargetModel;

    open spec fn view(&self) -> DeviceTargetModel {
        DeviceTargetModel { address: self.address@, name: self.name@ }
    }
}

/// The transport address for a device: the network identifier, a dot, the
/// host suffix, and the fixed device port.
pub open spec fn address_model(network_id: Seq<char>, host_id: Seq<char>) -> Seq<char> {
    network_id + "."@ + host_id + ":38899"@
}

/// The target derived from one directory record under a given network
/// identifier.
pub open spec fn target_model(network_id: Seq<char>, record: DeviceRecordModel) -> DeviceTargetModel {
    DeviceTargetModel { address: address_model(network_id, record.host_id), name: record.name }
}

/// A run-level failure: required configuration was absent, or the
/// persistence store refused a query or an insert.
pub enum RunError {
    Config(String),
    Store(String),
}

/// Mathematical model of a `RunError`.
pub enum RunErrorModel {
    Config(Seq<char>),
    Store(Seq<char>),
}

impl View for RunError {
    type V = RunErrorModel;

    open spec fn view(&self) -> RunErrorModel {
        match self {
            RunError::Config(detail) => RunErrorModel::Config(detail@),
            RunError::Store(detail) => RunErrorModel::Store(detail@),
        }
    }
}

/// Builds the transport address `<networkId>.<hostId>:38899` for one device.
pub fn make_address(network_id: &str, host_id: &str) -> (r: String)
    ensures
        r@ == address_model(network_id@, host_id@),
{
    let mut address = String::from_str(network_id);
    address.append(".");
    address.append(host_id);
    address.append(":38899");
    address
}

/// Derives the dispatch target for every directory record, in order.
pub fn build_targets(network_id: &str, records: &Vec<DeviceRecord>) -> (r: Vec<DeviceTarget>)
    ensures
        r@.len() == records@.len(),
        forall|i: int| 0 <= i < r@.len() ==> r@[i]@ == target_model(network_id@, records@[i]@),
{
    let mut targets: Vec<DeviceTarget> = Vec::new();
    let mut idx: usize = 0;
    while idx < records.len()
        invariant
            idx <= records@.len(),
            targets@.len() == idx,
            forall|i: int| 0 <= i < idx ==> targets@[i]@ == target_model(network_id@, records@[i]@),
        decreases records@.len() - idx,
    {
        let record = &records[idx];
        let address = make_address(network_id, record.host_id.as_str());
        let name = String::from_str(record.name.as_str());
        targets.push(DeviceTarget { address, name });
        idx = idx + 1;
    }
    targets
}

/// The device directory reader's decision logic. The caller hands in the
/// configured network identifier, if any, and the directory query's result;
/// a missing identifier is a configuration failure, a query failure is a
/// store failure, and otherwise every eligible record yields its target.
pub fn read_directory(network_id: Option<String>, rows: Result<Vec<DeviceRecord>, String>) -> (r: Result<
    Vec<DeviceTarget>,
    RunError,
>)
    ensures
        network_id is None ==> (r matches Err(e) && e@ == RunErrorModel::Config("NETWORK_ID not set"@)),
        network_id is Some && rows is Err ==> (r matches Err(e) && e@ == RunErrorModel::Store(
            rows->Err_0@,
        )),
        network_id is Some && rows is Ok ==> (r matches Ok(targets) && targets@.len()
            == rows->Ok_0@.len() && (forall|i: int|
            0 <= i < targets@.len() ==> targets@[i]@ == target_model(
                network_id->0@,
                rows->Ok_0@[i]@,
            ))),
{
    match network_id {
        None => Err(RunError::Config(String::from_str("NETWORK_ID not set"))),
        Some(id) => match rows {
            Err(detail) => Err(RunError::Store(detail)),
            Ok(records) => Ok(build_targets(id.as_str(), &records)),
        },
    }
}

} // verus!
