//! Installing and removing dendrite on an NPU VM: the parts of the dendrite
//! image, the SMF services it runs and their configuration, and the steps of
//! an uninstall.

use vstd::prelude::*;
use crate::text::{decimal, decimal_string};

verus! {

/// An I/O error, as the filesystem reports it.
#[verifier::external_type_specification]
#[verifier::external_body]
pub struct ExIoError(std::io::Error);

/// The parts of an installed dendrite image, in the order they are removed.
#[derive(Clone, Copy, Debug, PartialEq, Eq, Structural)]
pub enum ImagePart {
    /// `/opt/oxide/dendrite`
    DendriteDir,
    /// `/var/svc/manifest/site/dendrite`
    DendriteManifest,
    /// `/var/svc/manifest/site/tfport`
    TfportManifest,
    /// `/var/svc/manifest/site/uplink`
    UplinkManifest,
    /// The `/usr/bin/swadm` symlink.
    SwadmSymlink,
}

/// The path of an image part.
pub open spec fn image_part_path(part: ImagePart) -> Seq<char> {
    match part {
        ImagePart::DendriteDir => "/opt/oxide/dendrite"@,
        ImagePart::DendriteManifest => "/var/svc/manifest/site/dendrite"@,
        ImagePart::TfportManifest => "/var/svc/manifest/site/tfport"@,
        ImagePart::UplinkManifest => "/var/svc/manifest/site/uplink"@,
        ImagePart::SwadmSymlink => "/usr/bin/swadm"@,
    }
}

impl ImagePart {
    /// The path of this part.
    pub fn path(&self) -> (p: &'static str)
        ensures
            p@ == image_part_path(*self),
    {
        match self {
            ImagePart::DendriteDir => "/opt/oxide/dendrite",
            ImagePart::DendriteManifest => "/var/svc/manifest/site/dendrite",
            ImagePart::TfportManifest => "/var/svc/manifest/site/tfport",
            ImagePart::UplinkManifest => "/var/svc/manifest/site/uplink",
            ImagePart::SwadmSymlink => "/usr/bin/swadm",
        }
    }

    /// Whether this part is a symlink (removed as a file) rather than a
    /// directory (removed with its contents).
    pub fn is_symlink(&self) -> (b: bool)
        ensures
            b == (*self == ImagePart::SwadmSymlink),
    {
        match self {
            ImagePart::SwadmSymlink => true,
            _ => false,
        }
    }
}

/// The parts of the dendrite image, in the order they are removed.
pub fn image_parts() -> (parts: Vec<ImagePart>)
    ensures
        parts@ == seq![
            ImagePart::DendriteDir,
            ImagePart::DendriteManifest,
            ImagePart::TfportManifest,
            ImagePart::UplinkManifest,
            ImagePart::SwadmSymlink,
        ],
{
    let mut parts: Vec<ImagePart> = Vec::new();
    parts.push(ImagePart::DendriteDir);
    parts.push(ImagePart::DendriteManifest);
    parts.push(ImagePart::TfportManifest);
    parts.push(ImagePart::UplinkManifest);
    parts.push(ImagePart::SwadmSymlink);
    assert(parts@ =~= seq![
        ImagePart::DendriteDir,
        ImagePart::DendriteManifest,
        ImagePart::TfportManifest,
        ImagePart::UplinkManifest,
        ImagePart::SwadmSymlink,
    ]);
    parts
}

/// Why the dendrite image could not be removed: which part, and the error.
#[derive(Debug)]
pub enum RemoveDendriteImageError {
    RemoveDendriteDir(std::io::Error),
    RemoveDendriteManifest(std::io::Error),
    RemoveTfportManifest(std::io::Error),
    RemoveUplinkManifest(std::io::Error),
    RemoveSwadmSymlink(std::io::Error),
}

impl RemoveDendriteImageError {
    /// The error of a failure to remove `part`.
    pub fn for_part(part: ImagePart, error: std::io::Error) -> (e: RemoveDendriteImageError)
        ensures
            part == ImagePart::DendriteDir ==> e == RemoveDendriteImageError::RemoveDendriteDir(
                error,
            ),
            part == ImagePart::DendriteManifest ==> e
                == RemoveDendriteImageError::RemoveDendriteManifest(error),
            part == ImagePart::TfportManifest ==> e
                == RemoveDendriteImageError::RemoveTfportManifest(error),
            part == ImagePart::UplinkManifest ==> e
                == RemoveDendriteImageError::RemoveUplinkManifest(error),
            part == ImagePart::SwadmSymlink ==> e == RemoveDendriteImageError::RemoveSwadmSymlink(
                error,
            ),
    {
        match part {
            ImagePart::DendriteDir => RemoveDendriteImageError::RemoveDendriteDir(error),
            ImagePart::DendriteManifest => RemoveDendriteImageError::RemoveDendriteManifest(error),
            ImagePart::TfportManifest => RemoveDendriteImageError::RemoveTfportManifest(error),
            ImagePart::UplinkManifest => RemoveDendriteImageError::RemoveUplinkManifest(error),
            ImagePart::SwadmSymlink => RemoveDendriteImageError::RemoveSwadmSymlink(error),
        }
    }
}

/// The SMF services of dendrite, in the order they are enabled.
#[derive(Clone, Copy, Debug, PartialEq, Eq, Structural)]
pub enum DendriteService {
    Dendrite,
    Tfport,
    Uplink,
}

/// The service's name in SMF.
pub open spec fn service_fmri(s: DendriteService) -> Seq<char> {
    match s {
        DendriteService::Dendrite => "oxide/dendrite"@,
        DendriteService::Tfport => "oxide/tfport"@,
        DendriteService::Uplink => "oxide/uplink"@,
    }
}

impl DendriteService {
    /// The service's name in SMF.
    pub fn fmri(&self) -> (f: &'static str)
        ensures
            f@ == service_fmri(*self),
    {
        match self {
            DendriteService::Dendrite => "oxide/dendrite",
            DendriteService::Tfport => "oxide/tfport",
            DendriteService::Uplink => "oxide/uplink",
        }
    }
}

/// Why the dendrite services could not be disabled: the service, and what
/// SMF reported.
#[derive(Debug)]
pub enum DisableDendriteServicesError {
    DisableDendrite(String),
    DisableTfport(String),
    DisableUplink(String),
}

/// Why dendrite could not be uninstalled.
#[derive(Debug)]
pub enum DendriteUninstallError {
    DisableServices(DisableDendriteServicesError),
    RemoveImage(RemoveDendriteImageError),
}

/// Why the NPU VM machinery could not be uninstalled.
#[derive(Debug)]
pub enum UninstallError {
    Dendrite(DendriteUninstallError),
}

/// What has happened so far in an uninstall of dendrite.
#[derive(Debug)]
pub enum DendriteUninstallEvent {
    /// Nothing yet.
    Start,
    /// The services were disabled, or could not be.
    ServicesDisabled(Result<(), DisableDendriteServicesError>),
    /// The image was removed, or could not be.
    ImageRemoved(Result<(), RemoveDendriteImageError>),
}

/// The next step of an uninstall of dendrite.
#[derive(Debug)]
pub enum DendriteUninstallStep {
    /// Disable the dendrite, tfport and uplink services.
    DisableServices,
    /// Remove the dendrite image.
    RemoveImage,
    /// The uninstall is over, with this result.
    Finished(Result<(), DendriteUninstallError>),
}

/// Uninstalls dendrite by disabling all services and then removing the
/// image: decides the step that follows `event`. The image is removed only
/// once the services are disabled; the first failure ends the uninstall
/// with its error.
pub fn uninstall_dendrite(event: DendriteUninstallEvent) -> (step: DendriteUninstallStep)
    ensures
        event is Start ==> step is DisableServices,
        event matches DendriteUninstallEvent::ServicesDisabled(r) ==> match r {
            Ok(()) => step is RemoveImage,
            Err(e) => step == DendriteUninstallStep::Finished(
                Err(DendriteUninstallError::DisableServices(e)),
            ),
        },
        event matches DendriteUninstallEvent::ImageRemoved(r) ==> match r {
            Ok(()) => step == DendriteUninstallStep::Finished(Ok(())),
            Err(e) => step == DendriteUninstallStep::Finished(
                Err(DendriteUninstallError::RemoveImage(e)),
            ),
        },
{
    match event {
        DendriteUninstallEvent::Start => DendriteUninstallStep::DisableServices,
        DendriteUninstallEvent::ServicesDisabled(Ok(())) => DendriteUninstallStep::RemoveImage,
        DendriteUninstallEvent::ServicesDisabled(Err(e)) => DendriteUninstallStep::Finished(
            Err(DendriteUninstallError::DisableServices(e)),
        ),
        DendriteUninstallEvent::ImageRemoved(Ok(())) => DendriteUninstallStep::Finished(Ok(())),
        DendriteUninstallEvent::ImageRemoved(Err(e)) => DendriteUninstallStep::Finished(
            Err(DendriteUninstallError::RemoveImage(e)),
        ),
    }
}

/// The result of uninstalling the NPU VM machinery, from the result of
/// uninstalling dendrite.
pub fn uninstall(dendrite: Result<(), DendriteUninstallError>) -> (r: Result<(), UninstallError>)
    ensures
        match dendrite {
            Ok(()) => r == Ok::<(), UninstallError>(()),
            Err(e) => r == Err::<(), UninstallError>(UninstallError::Dendrite(e)),
        },
{
    match dendrite {
        Ok(()) => Ok(()),
        Err(e) => Err(UninstallError::Dendrite(e)),
    }
}

/// An SMF property of type `astring`.
#[derive(Debug)]
pub struct SmfProperty {
    pub name: String,
    pub value: String,
}

/// The `config` properties of the dendrite service: the port counts, the
/// UART management channel and the API address.
pub fn dendrite_config_properties(front_ports: usize, rear_ports: usize) -> (props: Vec<
    SmfProperty,
>)
    ensures
        props@.len() == 4,
        props@[0].name@ == "front_ports"@ && props@[0].value@ == decimal(front_ports as nat),
        props@[1].name@ == "rear_ports"@ && props@[1].value@ == decimal(rear_ports as nat),
        props@[2].name@ == "mgmt"@ && props@[2].value@ == "uart"@,
        props@[3].name@ == "address"@ && props@[3].value@ == "[::]:12224"@,
{
    let mut props: Vec<SmfProperty> = Vec::new();
    props.push(
        SmfProperty { name: String::from_str("front_ports"), value: decimal_string(front_ports) },
    );
    props.push(
        SmfProperty { name: String::from_str("rear_ports"), value: decimal_string(rear_ports) },
    );
    props.push(SmfProperty { name: String::from_str("mgmt"), value: String::from_str("uart") });
    props.push(
        SmfProperty { name: String::from_str("address"), value: String::from_str("[::]:12224") },
    );
    props
}

/// The `config` properties of the tfport service: the packet source device.
pub fn tfport_config_properties(pkt_source: &str) -> (props: Vec<SmfProperty>)
    ensures
        props@.len() == 1,
        props@[0].name@ == "pkt_source"@ && props@[0].value@ == pkt_source@,
{
    let mut props: Vec<SmfProperty> = Vec::new();
    props.push(
        SmfProperty { name: String::from_str("pkt_source"), value: String::from_str(pkt_source) },
    );
    props
}

/// The SMF manifests of the dendrite image, imported in this order.
pub fn service_manifests() -> (paths: Vec<&'static str>)
    ensures
        paths@.len() == 3,
        paths@[0]@ == "/var/svc/manifest/site/dendrite/manifest.xml"@,
        paths@[1]@ == "/var/svc/manifest/site/tfport/manifest.xml"@,
        paths@[2]@ == "/var/svc/manifest/site/uplink/manifest.xml"@,
{
    let mut paths: Vec<&'static str> = Vec::new();
    paths.push("/var/svc/manifest/site/dendrite/manifest.xml");
    paths.push("/var/svc/manifest/site/tfport/manifest.xml");
    paths.push("/var/svc/manifest/site/uplink/manifest.xml");
    paths
}

/// The service dependencies that do not exist on an NPU VM and are removed,
/// as (service, dependency) pairs.
pub fn absent_dependencies() -> (deps: Vec<(&'static str, &'static str)>)
    ensures
        deps@.len() == 3,
        deps@[0].0@ == "oxide/dendrite"@ && deps@[0].1@ == "zone_network_setup"@,
        deps@[1].0@ == "oxide/tfport"@ && deps@[1].1@ == "zone_network_setup"@,
        deps@[2].0@ == "oxide/tfport"@ && deps@[2].1@ == "switch_zone_setup"@,
{
    let mut deps: Vec<(&'static str, &'static str)> = Vec::new();
    deps.push(("oxide/dendrite", "zone_network_setup"));
    deps.push(("oxide/tfport", "zone_network_setup"));
    deps.push(("oxide/tfport", "switch_zone_setup"));
    deps
}

/// The exit code with which `pkg install` reports that the package is
/// already installed.
pub const PKG_ALREADY_INSTALLED: i32 = 4;

/// Whether `pkg install tofino` did its work: it succeeded, or the package
/// was already there. A process ended by a signal has no exit code.
pub fn tofino_install_succeeded(exit_code: Option<i32>) -> (ok: bool)
    ensures
        ok <==> (exit_code == Some(0i32) || exit_code == Some(PKG_ALREADY_INSTALLED)),
{
    match exit_code {
        Some(c) => c == 0 || c == PKG_ALREADY_INSTALLED,
        None => false,
    }
}

} // verus!
