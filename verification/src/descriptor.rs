//! Workload descriptors: the creation commands the interactive side hands to
//! the synchronization loop for submission to the control plane.
//!
//! A descriptor is a structured value — a generated unique name, the
//! `unit-kind` label, and for miners the target address the user typed — plus
//! its rendering as the control plane's native JSON object format.

use vstd::prelude::*;
use crate::text::{decimal, u32_to_decimal};

verus! {

/// The kind of unit the creation flow is building.
#[derive(Clone, Copy, Debug, PartialEq, Eq, Structural)]
pub enum CreateTarget {
    Miner,
    Processor,
}

/// The `unit-kind` label value for each kind.
pub open spec fn kind_label(kind: CreateTarget) -> Seq<char> {
    match kind {
        CreateTarget::Miner => "miner"@,
        CreateTarget::Processor => "processor"@,
    }
}

/// Mathematical image of a [`Descriptor`].
pub struct DescriptorModel {
    pub name: Seq<char>,
    pub label: Seq<char>,
    pub target: Option<Seq<char>>,
}

/// The descriptor a creation command built from `kind`, `addr` and the
/// generated suffix `id` must carry: name `<kind>-<id>`, the kind's label,
/// and — for miners only — the typed address as the target.
pub open spec fn descriptor_model(kind: CreateTarget, addr: Seq<char>, id: nat) -> DescriptorModel {
    DescriptorModel {
        name: kind_label(kind) + "-"@ + decimal(id),
        label: kind_label(kind),
        target: match kind {
            CreateTarget::Miner => Some(addr),
            CreateTarget::Processor => None,
        },
    }
}

/// A workload descriptor ready for submission.
pub struct Descriptor {
    /// Unique name, `<kind>-<random-id>`.
    pub name: String,
    /// Value of the `unit-kind` label.
    pub unit_kind_label: String,
    /// For miners: the processor address the new unit will feed.
    pub target_address: Option<String>,
}

impl View for Descriptor {
    type V = DescriptorModel;

    open spec fn view(&self) -> DescriptorModel {
        DescriptorModel {
            name: self.name@,
            label: self.unit_kind_label@,
            target: match self.target_address {
                Some(t) => Some(t@),
                None => None,
            },
        }
    }
}

impl DeepView for Descriptor {
    type V = DescriptorModel;

    open spec fn deep_view(&self) -> DescriptorModel {
        self.view()
    }
}

/// The label string for a kind.
pub fn kind_label_str(kind: CreateTarget) -> (s: &'static str)
    ensures
        s@ == kind_label(kind),
{
    match kind {
        CreateTarget::Miner => "miner",
        CreateTarget::Processor => "processor",
    }
}

/// Builds the creation command for one new unit: the name is the kind's
/// label with the generated numeric suffix appended, the label identifies
/// the kind, and a miner carries the typed address as its target.
pub fn build_descriptor(kind: CreateTarget, address: &str, id: u32) -> (d: Descriptor)
    ensures
        d@ == descriptor_model(kind, address@, id as nat),
{
    let label = kind_label_str(kind);
    let mut name = String::from_str(label);
    name.append("-");
    let suffix = u32_to_decimal(id);
    name.append(suffix.as_str());
    let target_address = match kind {
        CreateTarget::Miner => Some(address.to_owned()),
        CreateTarget::Processor => None,
    };
    Descriptor { name, unit_kind_label: String::from_str(label), target_address }
}

/// A creation command built for a miner carries the label `miner` and the
/// typed address unchanged; one built for a processor carries the label
/// `processor` and no target.
pub proof fn lemma_descriptor_round_trip(kind: CreateTarget, addr: Seq<char>, id: nat)
    ensures
        kind is Miner ==> descriptor_model(kind, addr, id).label == "miner"@,
        kind is Miner ==> descriptor_model(kind, addr, id).target == Some(addr),
        kind is Processor ==> descriptor_model(kind, addr, id).label == "processor"@,
        kind is Processor ==> descriptor_model(kind, addr, id).target is None,
{
}

/// Relies on `rand::random`: draws the pseudo-random numeric suffix that
/// makes a generated unit name unique. Nothing is assumed of the value.
#[verifier::external_body]
pub(crate) fn random_unit_id() -> u32 {
    rand::random::<u32>()
}

/// The JSON object the control plane receives for a descriptor: a pod with
/// the descriptor's name, its `unit-kind` label, one container, and — when a
/// target is present — a `TARGET` environment entry holding it.
pub open spec fn json_of(d: DescriptorModel) -> Seq<char> {
    "{\"apiVersion\":\"v1\",\"kind\":\"Pod\",\"metadata\":{\"name\":\""@ + d.name
        + "\",\"labels\":{\"cube-harvest.io/unit-type\":\""@ + d.label
        + "\"}},\"spec\":{\"containers\":[{\"name\":\""@ + d.label + "\",\"image\":\"cube-harvest/"@
        + d.label + match d.target {
        Some(t) => "\",\"env\":[{\"name\":\"TARGET\",\"value\":\""@ + t + "\"}]}]}}"@,
        None => "\"}]}}"@,
    }
}

/// Renders a descriptor in the control plane's native JSON object format.
pub fn to_json(d: &Descriptor) -> (s: String)
    ensures
        s@ == json_of(d@),
{
    let mut s = String::from_str("{\"apiVersion\":\"v1\",\"kind\":\"Pod\",\"metadata\":{\"name\":\"");
    s.append(d.name.as_str());
    s.append("\",\"labels\":{\"cube-harvest.io/unit-type\":\"");
    s.append(d.unit_kind_label.as_str());
    s.append("\"}},\"spec\":{\"containers\":[{\"name\":\"");
    s.append(d.unit_kind_label.as_str());
    s.append("\",\"image\":\"cube-harvest/");
    s.append(d.unit_kind_label.as_str());
    match &d.target_address {
        Some(t) => {
            s.append("\",\"env\":[{\"name\":\"TARGET\",\"value\":\"");
            s.append(t.as_str());
            s.append("\"}]}]}}");
        },
        None => {
            s.append("\"}]}}");
        },
    }
    s
}

} // verus!
