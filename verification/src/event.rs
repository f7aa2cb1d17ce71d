//! Dispatch outcomes and the audit events recorded for them.

use vstd::prelude::*;
use vstd::string::StringExecFns;
use crate::device::DeviceTarget;
use crate::device::DeviceTargetModel;

verus! {

/// Severity of an audit event.
#[derive(Clone, Copy, PartialEq, Eq, Structural, Debug)]
pub enum Severity {
    Info,
    Error,
}

/// The text under which a severity is persisted in the audit log.
pub open spec fn severity_label_model(severity: Severity) -> Seq<char> {
    match severity {
        Severity::Info => "Info"@,
        Severity::Error => "Error"@,
    }
}

impl Severity {
    /// The severity's text in the audit log's severity column.
    pub fn label(&self) -> (r: String)
        ensures
            r@ == severity_label_model(*self),
    {
        match self {
            Severity::Info => String::from_str("Info"),
            Severity::Error => String::from_str("Error"),
        }
    }
}

/// Result of one dispatch attempt: the datagram was handed to the network
/// stack, or the attempt failed with a transport-level detail.
pub enum DispatchOutcome {
    Success,
    Failure(String),
}

/// Mathematical model of a `DispatchOutcome`.
pub enum DispatchOutcomeModel {
    Success,
    Failure(Seq<char>),
}

impl View for DispatchOutcome {
    type V = DispatchOutcomeModel;

    open spec fn view(&self) -> DispatchOutcomeModel {
        match self {
            DispatchOutcome::Success => DispatchOutcomeModel::Success,
            DispatchOutcome::Failure(detail) => DispatchOutcomeModel::Failure(detail@),
        }
    }
}

/// One append-only audit record: severity, human-readable message, the
/// device's label, and the constant routine tag.
pub struct AuditEvent {
    pub severity: Severity,
    pub message: String,
    pub machine: String,
    pub event_type: String,
}

/// Mathematical model of an `AuditEvent`.
pub struct AuditEventModel {
    pub severity: Severity,
    pub message: Seq<char>,
    pub machine: Seq<char>,
    pub event_type: Seq<char>,
}

impl View for AuditEvent {
    type V = AuditEventModel;

    open spec fn view(&self) -> AuditEventModel {
        AuditEventModel {
            severity: self.severity,
            message: self.message@,
            machine: self.machine@,
            event_type: self.event_type@,
        }
    }
}

/// The audit message for a successful dispatch.
pub open spec fn success_message_model(name: Seq<char>, address: Seq<char>) -> Seq<char> {
    "Light "@ + name + " at "@ + address + " dimmed to 10%."@
}

/// The audit message for a failed dispatch, carrying the failure detail.
pub open spec fn failure_message_model(name: Seq<char>, address: Seq<char>, detail: Seq<char>) -> Seq<char> {
    "Failed to dim light "@ + name + " at "@ + address + ": "@ + detail
}

/// The audit event recorded for one target and one dispatch outcome: Info on
/// success, Error on failure, always tagged with the bedtime routine.
pub open spec fn event_model(target: DeviceTargetModel, outcome: DispatchOutcomeModel) -> AuditEventModel {
    match outcome {
        DispatchOutcomeModel::Success => AuditEventModel {
            severity: Severity::Info,
            message: success_message_model(target.name, target.address),
            machine: target.name,
            event_type: "Bedtime"@,
        },
        DispatchOutcomeModel::Failure(detail) => AuditEventModel {
            severity: Severity::Error,
            message: failure_message_model(target.name, target.address, detail),
            machine: target.name,
            event_type: "Bedtime"@,
        },
    }
}

/// Builds the audit event for one dispatch outcome against one target.
pub fn audit_event_for(target: &DeviceTarget, outcome: &DispatchOutcome) -> (r: AuditEvent)
    ensures
        r@ == event_model(target@, outcome@),
{
    match outcome {
        DispatchOutcome::Success => {
            let mut message = String::from_str("Light ");
            message.append(target.name.as_str());
            message.append(" at ");
            message.append(target.address.as_str());
            message.append(" dimmed to 10%.");
            AuditEvent {
                severity: Severity::Info,
                message,
                machine: String::from_str(target.name.as_str()),
                event_type: String::from_str("Bedtime"),
            }
        },
        DispatchOutcome::Failure(detail) => {
            let mut message = String::from_str("Failed to dim light ");
            message.append(target.name.as_str());
            message.append(" at ");
            message.append(target.address.as_str());
            message.append(": ");
            message.append(detail.as_str());
            AuditEvent {
                severity: Severity::Error,
                message,
                machine: String::from_str(target.name.as_str()),
                event_type: String::from_str("Bedtime"),
            }
        },
    }
}

/// The fixed control payload asking a device to enter a powered, dimmed
/// state at 10% brightness.
pub open spec fn dim_payload_model() -> Seq<char> {
    "{\"method\":\"setPilot\",\"params\":{\"state\":true,\"dimming\":10}}"@
}

/// Returns the fixed dispatch payload, constant across devices and runs.
pub fn dim_payload() -> (r: String)
    ensures
        r@ == dim_payload_model(),
{
    String::from_str("{\"method\":\"setPilot\",\"params\":{\"state\":true,\"dimming\":10}}")
}

} // verus!
