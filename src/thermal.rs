//! A thermal component: a heated room driven by one boolean heater signal.
use vstd::prelude::*;
use crate::component::SimulationComponent;
use crate::metadata::{ComponentMetadata, IOSpec, IOSpecView, IOType, MetadataView};

verus! {

/// The model that the thermal component's engine is built for.
pub open spec fn thermal_model_name() -> Seq<char> {
    "SimpleThermalMVP"@
}

/// The thermal component's self-description: one boolean input, `heaterOn`,
/// and two Real outputs, `temperature` in kelvin and `heaterStatus` as 0 or 1.
pub open spec fn thermal_metadata() -> MetadataView {
    MetadataView {
        name: "SimpleThermalMVP"@,
        component_type: "Thermal"@,
        inputs: seq![
            IOSpecView {
                name: "heaterOn"@,
                io_type: IOType::Boolean,
                unit: None,
                description: Some("Heater control signal"@),
            },
        ],
        outputs: seq![
            IOSpecView {
                name: "temperature"@,
                io_type: IOType::Real,
                unit: Some("K"@),
                description: Some("Current room temperature"@),
            },
            IOSpecView {
                name: "heaterStatus"@,
                io_type: IOType::Real,
                unit: None,
                description: Some("Heater status (0=off, 1=on)"@),
            },
        ],
    }
}

/// The thermal component's signal names are unique.
pub proof fn lemma_thermal_metadata_wf()
    ensures
        thermal_metadata().wf(),
{
    reveal_strlit("temperature");
    reveal_strlit("heaterStatus");
    assert("temperature"@.len() != "heaterStatus"@.len());
}

/// A component for a heated room. It owns no engine state of its own: the
/// host builds one engine for the model that `model_name` gives, performs
/// the engine calls that the operations decide, and hands their answers back.
pub struct SimpleThermalComponent {}

impl SimpleThermalComponent {
    /// A thermal component; the host builds its engine from `model_name`.
    pub fn new() -> Self {
        SimpleThermalComponent {  }
    }

    /// The name of the model the host builds this component's engine for.
    pub fn model_name(&self) -> (r: String)
        ensures
            r@ == thermal_model_name(),
    {
        String::from_str("SimpleThermalMVP")
    }
}

impl SimulationComponent for SimpleThermalComponent {
    open spec fn spec_component_type(&self) -> Seq<char> {
        thermal_model_name()
    }

    open spec fn spec_metadata(&self) -> MetadataView {
        thermal_metadata()
    }

    /// The category tag of this component; the same on every call.
    fn component_type(&self) -> (r: String) {
        String::from_str("SimpleThermalMVP")
    }

    /// The static self-description of this component; the same on every call.
    fn metadata(&self) -> (r: ComponentMetadata) {
        let mut inputs: Vec<IOSpec> = Vec::new();
        inputs.push(
            IOSpec {
                name: String::from_str("heaterOn"),
                io_type: IOType::Boolean,
                unit: None,
                description: Some(String::from_str("Heater control signal")),
            },
        );
        let mut outputs: Vec<IOSpec> = Vec::new();
        outputs.push(
            IOSpec {
                name: String::from_str("temperature"),
                io_type: IOType::Real,
                unit: Some(String::from_str("K")),
                description: Some(String::from_str("Current room temperature")),
            },
        );
        outputs.push(
            IOSpec {
                name: String::from_str("heaterStatus"),
                io_type: IOType::Real,
                unit: None,
                description: Some(String::from_str("Heater status (0=off, 1=on)")),
            },
        );
        let r = ComponentMetadata {
            name: String::from_str("SimpleThermalMVP"),
            component_type: String::from_str("Thermal"),
            inputs,
            outputs,
        };
        assert(r@.inputs =~= thermal_metadata().inputs);
        assert(r@.outputs =~= thermal_metadata().outputs);
        proof {
            lemma_thermal_metadata_wf();
        }
        r
    }
}

} // verus!
