use sim_components::{
    ComponentError, EngineCall, IOType, SimpleThermalComponent, SimulationComponent,
};

fn names(v: &Vec<String>) -> Vec<&str> {
    v.iter().map(|s| s.as_str()).collect()
}

#[test]
fn metadata_describes_thermal_signals() {
    let c = SimpleThermalComponent::new();
    let m = c.metadata();
    assert_eq!(m.name, "SimpleThermalMVP");
    assert_eq!(m.component_type, "Thermal");
    assert_eq!(m.inputs.len(), 1);
    assert_eq!(m.inputs[0].name, "heaterOn");
    assert_eq!(m.inputs[0].io_type, IOType::Boolean);
    assert_eq!(m.inputs[0].unit, None);
    assert_eq!(m.inputs[0].description.as_deref(), Some("Heater control signal"));
    assert_eq!(m.outputs.len(), 2);
    assert_eq!(m.outputs[0].name, "temperature");
    assert_eq!(m.outputs[0].io_type, IOType::Real);
    assert_eq!(m.outputs[0].unit.as_deref(), Some("K"));
    assert_eq!(m.outputs[0].description.as_deref(), Some("Current room temperature"));
    assert_eq!(m.outputs[1].name, "heaterStatus");
    assert_eq!(m.outputs[1].io_type, IOType::Real);
    assert_eq!(m.outputs[1].unit, None);
    assert_eq!(m.outputs[1].description.as_deref(), Some("Heater status (0=off, 1=on)"));
}

#[test]
fn component_type_and_model_name() {
    let c = SimpleThermalComponent::new();
    assert_eq!(c.component_type(), "SimpleThermalMVP");
    assert_eq!(c.model_name(), "SimpleThermalMVP");
}

#[test]
fn metadata_and_component_type_stable_across_calls() {
    let c = SimpleThermalComponent::new();
    assert_eq!(c.metadata(), c.metadata());
    assert_eq!(c.component_type(), c.component_type());
}

#[test]
fn set_input_unknown_name_is_refused() {
    let c = SimpleThermalComponent::new();
    let r = c.set_input("nonexistent", 1.0_f64);
    assert_eq!(r, Err(ComponentError::UnknownVariable("nonexistent".to_string())));
    let b = c.set_bool_input::<f64>("nonexistent", true);
    assert_eq!(b, Err(ComponentError::UnknownVariable("nonexistent".to_string())));
    let g = c.get_output::<f64>("nonexistent");
    assert_eq!(g, Err(ComponentError::UnknownVariable("nonexistent".to_string())));
}

#[test]
fn set_bool_input_on_real_output_is_mismatch() {
    let c = SimpleThermalComponent::new();
    for name in ["temperature", "heaterStatus"] {
        let r = c.set_bool_input::<f64>(name, true);
        assert_eq!(r, Err(ComponentError::TypeMismatch(name.to_string())));
    }
}

#[test]
fn heater_sequence_forwards_calls() {
    let c = SimpleThermalComponent::new();
    let r = c.set_input("heaterOn", 1.0_f64);
    assert_eq!(r, Err(ComponentError::TypeMismatch("heaterOn".to_string())));
    let b = c.set_bool_input::<f64>("heaterOn", true);
    assert_eq!(b, Ok(EngineCall::SetBool("heaterOn".to_string(), true)));
    assert_eq!(c.step(60.0_f64), EngineCall::Step(60.0));
    let t = c.get_output::<f64>("temperature");
    assert_eq!(t, Ok(EngineCall::GetReal("temperature".to_string())));
    let s = c.get_output::<f64>("heaterStatus");
    assert_eq!(s, Ok(EngineCall::GetReal("heaterStatus".to_string())));
}

#[test]
fn declared_outputs_are_readable() {
    let c = SimpleThermalComponent::new();
    for spec in c.metadata().outputs {
        assert_eq!(spec.io_type, IOType::Real);
        let r = c.get_output::<f64>(&spec.name);
        assert_eq!(r, Ok(EngineCall::GetReal(spec.name.clone())));
    }
}

#[test]
fn get_output_on_boolean_input_is_mismatch() {
    let c = SimpleThermalComponent::new();
    let r = c.get_output::<f64>("heaterOn");
    assert_eq!(r, Err(ComponentError::TypeMismatch("heaterOn".to_string())));
}

#[test]
fn set_input_on_real_output_is_forwarded() {
    let c = SimpleThermalComponent::new();
    let r = c.set_input("temperature", 293.15_f64);
    assert_eq!(r, Ok(EngineCall::SetReal("temperature".to_string(), 293.15)));
}

#[test]
fn initialize_and_reset_issue_reset() {
    let c = SimpleThermalComponent::new();
    assert_eq!(c.initialize::<f64>(), EngineCall::Reset);
    assert_eq!(c.reset::<f64>(), EngineCall::Reset);
    assert_eq!(c.reset::<f64>(), c.reset::<f64>());
}

#[test]
fn step_with_zero_duration_is_forwarded() {
    let c = SimpleThermalComponent::new();
    assert_eq!(c.step(0.0_f64), EngineCall::Step(0.0));
}

#[test]
fn output_names_follow_metadata() {
    let c = SimpleThermalComponent::new();
    assert_eq!(names(&c.output_names()), vec!["temperature", "heaterStatus"]);
}

#[test]
fn all_outputs_keep_every_success() {
    let c = SimpleThermalComponent::new();
    let reads: Vec<Result<f64, ComponentError>> = vec![Ok(293.15), Ok(1.0)];
    let r = c.get_all_outputs(&reads);
    assert_eq!(
        r,
        vec![("temperature".to_string(), 293.15), ("heaterStatus".to_string(), 1.0)]
    );
}

#[test]
fn all_outputs_leave_out_failed_reads() {
    let c = SimpleThermalComponent::new();
    let reads: Vec<Result<f64, ComponentError>> = vec![
        Err(ComponentError::RuntimeFailure("solver diverged".to_string())),
        Ok(0.0),
    ];
    let r = c.get_all_outputs(&reads);
    assert_eq!(r, vec![("heaterStatus".to_string(), 0.0)]);
}

#[test]
fn all_outputs_empty_when_every_read_fails() {
    let c = SimpleThermalComponent::new();
    let reads: Vec<Result<f64, ComponentError>> = vec![
        Err(ComponentError::UnknownVariable("temperature".to_string())),
        Err(ComponentError::TypeMismatch("heaterStatus".to_string())),
    ];
    assert!(c.get_all_outputs(&reads).is_empty());
}

#[test]
fn all_outputs_keys_are_declared_outputs() {
    let c = SimpleThermalComponent::new();
    let declared = c.output_names();
    let reads: Vec<Result<f64, ComponentError>> = vec![Ok(300.0), Ok(1.0)];
    for (k, _) in c.get_all_outputs(&reads) {
        assert!(declared.contains(&k));
    }
}
