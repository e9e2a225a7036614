use softnpu::dendrite::{
    absent_dependencies, dendrite_config_properties, image_parts, service_manifests,
    tfport_config_properties, tofino_install_succeeded, uninstall, uninstall_dendrite,
    DendriteService, DendriteUninstallError, DendriteUninstallEvent, DendriteUninstallStep,
    DisableDendriteServicesError, ImagePart, RemoveDendriteImageError, UninstallError,
};

#[test]
fn uninstall_disables_services_then_removes_the_image() {
    assert!(matches!(
        uninstall_dendrite(DendriteUninstallEvent::Start),
        DendriteUninstallStep::DisableServices
    ));
    assert!(matches!(
        uninstall_dendrite(DendriteUninstallEvent::ServicesDisabled(Ok(()))),
        DendriteUninstallStep::RemoveImage
    ));
    assert!(matches!(
        uninstall_dendrite(DendriteUninstallEvent::ImageRemoved(Ok(()))),
        DendriteUninstallStep::Finished(Ok(()))
    ));
}

#[test]
fn uninstall_stops_at_the_first_failure() {
    let step = uninstall_dendrite(DendriteUninstallEvent::ServicesDisabled(Err(
        DisableDendriteServicesError::DisableTfport("gone".into()),
    )));
    assert!(matches!(
        step,
        DendriteUninstallStep::Finished(Err(DendriteUninstallError::DisableServices(
            DisableDendriteServicesError::DisableTfport(ref m)
        ))) if m == "gone"
    ));
    let err = std::io::Error::other("busy");
    let step = uninstall_dendrite(DendriteUninstallEvent::ImageRemoved(Err(
        RemoveDendriteImageError::for_part(ImagePart::TfportManifest, err),
    )));
    match step {
        DendriteUninstallStep::Finished(Err(e)) => {
            let r = uninstall(Err(e));
            assert!(matches!(
                r,
                Err(UninstallError::Dendrite(DendriteUninstallError::RemoveImage(
                    RemoveDendriteImageError::RemoveTfportManifest(_)
                )))
            ));
        }
        other => panic!("{:?}", other),
    }
    assert!(uninstall(Ok(())).is_ok());
}

#[test]
fn image_parts_and_services() {
    let paths: Vec<&str> = image_parts().iter().map(|p| p.path()).collect();
    assert_eq!(
        paths,
        vec![
            "/opt/oxide/dendrite",
            "/var/svc/manifest/site/dendrite",
            "/var/svc/manifest/site/tfport",
            "/var/svc/manifest/site/uplink",
            "/usr/bin/swadm",
        ]
    );
    assert!(ImagePart::SwadmSymlink.is_symlink());
    assert!(!ImagePart::DendriteDir.is_symlink());
    assert_eq!(DendriteService::Tfport.fmri(), "oxide/tfport");
    assert_eq!(service_manifests()[2], "/var/svc/manifest/site/uplink/manifest.xml");
    assert_eq!(absent_dependencies()[2], ("oxide/tfport", "switch_zone_setup"));
}

#[test]
fn service_properties() {
    let p = dendrite_config_properties(32, 0);
    let pairs: Vec<(String, String)> = p.into_iter().map(|p| (p.name, p.value)).collect();
    assert_eq!(
        pairs,
        vec![
            ("front_ports".to_string(), "32".to_string()),
            ("rear_ports".to_string(), "0".to_string()),
            ("mgmt".to_string(), "uart".to_string()),
            ("address".to_string(), "[::]:12224".to_string()),
        ]
    );
    let t = tfport_config_properties("vioif0");
    assert_eq!(t[0].name, "pkt_source");
    assert_eq!(t[0].value, "vioif0");
}

#[test]
fn tofino_install_accepts_already_installed() {
    assert!(tofino_install_succeeded(Some(0)));
    assert!(tofino_install_succeeded(Some(4)));
    assert!(!tofino_install_succeeded(Some(1)));
    assert!(!tofino_install_succeeded(None));
}
