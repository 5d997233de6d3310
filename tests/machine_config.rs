use sigmanest_interface::batch::BatchType;
use sigmanest_interface::machine::{get_machine_config, get_machine_extension, ConfigError, Machine, MachineAttr};

fn machine(name: &str, extension: Option<&str>) -> Machine {
    Machine {
        name: Some(name.to_string()),
        post_folder: Some(format!("post/{}", name)),
        production_folder: Some(format!("prod/{}", name)),
        archive_folder: None,
        extension: extension.map(|e| e.to_string()),
    }
}

#[test]
fn extension_of_a_machine_ignores_ascii_case() {
    let machines = vec![machine("Laser1", Some(".nc")), machine("PLASMA", Some(".cnc"))];
    assert_eq!(get_machine_extension(&machines, "LASER1").unwrap(), ".nc");
    assert_eq!(get_machine_extension(&machines, "plasma").unwrap(), ".cnc");
}

#[test]
fn first_machine_of_a_name_decides() {
    let machines = vec![machine("laser1", None), machine("LASER1", Some(".nc"))];
    match get_machine_extension(&machines, "Laser1") {
        Err(ConfigError::MachineNotFound(name)) => assert_eq!(name, "Laser1"),
        other => panic!("unexpected {:?}", other),
    }
}

#[test]
fn unknown_machine_is_not_found() {
    let mut unnamed = machine("x", Some(".nc"));
    unnamed.name = None;
    let machines = vec![unnamed, machine("Laser1", Some(".nc"))];
    assert!(matches!(get_machine_extension(&machines, "Laser10"), Err(ConfigError::MachineNotFound(_))));
    assert!(matches!(get_machine_extension(&machines, "x"), Err(ConfigError::MachineNotFound(_))));
}

#[test]
fn settings_by_attribute() {
    let machines = vec![machine("Laser1", Some(".nc"))];
    assert_eq!(get_machine_config(&machines, "laser1", MachineAttr::PostFolder).unwrap(), "post/Laser1");
    assert_eq!(get_machine_config(&machines, "laser1", MachineAttr::ProductionFolder).unwrap(), "prod/Laser1");
    assert!(get_machine_config(&machines, "laser1", MachineAttr::ArchiveFolder).is_err());
}

#[test]
fn xml_tags_of_the_settings() {
    assert_eq!(MachineAttr::PostFolder.xml_tag(), "SourceNCFolder");
    assert_eq!(MachineAttr::ProductionFolder.xml_tag(), "OutputNCFolder");
    assert_eq!(MachineAttr::ArchiveFolder.xml_tag(), "ArchiveNCFolder");
    assert_eq!(MachineAttr::Extension.xml_tag(), "NCFileExtension");
}

#[test]
fn batch_flags() {
    assert_eq!(BatchType::from_flag("N"), Some(BatchType::New));
    assert_eq!(BatchType::from_flag("Y"), Some(BatchType::Remnant));
    assert_eq!(BatchType::from_flag("y"), None);
    assert_eq!(BatchType::from_flag(""), None);
}
