use vstd::prelude::*;

verus! {

/// Where the versions of an artifact are published.
#[derive(Clone, Copy, Debug)]
pub enum ArtifactSource {
    /// The hosted portal, addressed by the artifact's slug.
    Portal { slug: &'static str },
    /// The latest release of a public repository.
    GithubRelease { owner: &'static str, repo: &'static str },
}

/// The binaries that the launcher keeps up to date.
#[derive(Clone, Copy, Debug, PartialEq, Eq, Structural, Hash)]
pub enum Artifact {
    Cs2Overlay,
    Cs2RadarClient,
    DriverInterfaceKernel,
    KernelDriver,
}

pub open spec fn spec_name(a: Artifact) -> Seq<char> {
    match a {
        Artifact::Cs2Overlay => "CS2 Overlay"@,
        Artifact::Cs2RadarClient => "CS2 Radar Client"@,
        Artifact::DriverInterfaceKernel => "Driver Interface Kernel"@,
        Artifact::KernelDriver => "Kernel Driver"@,
    }
}

pub open spec fn spec_slug(a: Artifact) -> Seq<char> {
    match a {
        Artifact::Cs2Overlay => "cs2-overlay"@,
        Artifact::Cs2RadarClient => "cs2-radar-client"@,
        Artifact::DriverInterfaceKernel => "driver-interface-kernel"@,
        Artifact::KernelDriver => "kernel-driver"@,
    }
}

pub open spec fn spec_file_name(a: Artifact) -> Seq<char> {
    match a {
        Artifact::Cs2Overlay => "cs2_overlay.exe"@,
        Artifact::Cs2RadarClient => "cs2_radar_client.exe"@,
        Artifact::DriverInterfaceKernel => "driver_interface_kernel.dll"@,
        Artifact::KernelDriver => "kernel_driver.sys"@,
    }
}

impl Artifact {
    /// The name shown to the user.
    pub fn name(&self) -> (r: &'static str)
        ensures
            r@ == spec_name(*self),
    {
        match self {
            Artifact::Cs2Overlay => "CS2 Overlay",
            Artifact::Cs2RadarClient => "CS2 Radar Client",
            Artifact::DriverInterfaceKernel => "Driver Interface Kernel",
            Artifact::KernelDriver => "Kernel Driver",
        }
    }

    /// The identity under which the artifact is published and its hash stored.
    pub fn slug(&self) -> (r: &'static str)
        ensures
            r@ == spec_slug(*self),
    {
        match self {
            Artifact::Cs2Overlay => "cs2-overlay",
            Artifact::Cs2RadarClient => "cs2-radar-client",
            Artifact::DriverInterfaceKernel => "driver-interface-kernel",
            Artifact::KernelDriver => "kernel-driver",
        }
    }

    /// The file name under which the artifact is installed.
    pub fn file_name(&self) -> (r: &'static str)
        ensures
            r@ == spec_file_name(*self),
    {
        match self {
            Artifact::Cs2Overlay => "cs2_overlay.exe",
            Artifact::Cs2RadarClient => "cs2_radar_client.exe",
            Artifact::DriverInterfaceKernel => "driver_interface_kernel.dll",
            Artifact::KernelDriver => "kernel_driver.sys",
        }
    }

    /// Every artifact is published on the portal under its own slug.
    pub fn source(&self) -> (r: ArtifactSource)
        ensures
            r is Portal,
            r->Portal_slug@ == spec_slug(*self),
    {
        ArtifactSource::Portal { slug: self.slug() }
    }
}

/// The programs that can be launched.
#[derive(Clone, Copy, Debug, PartialEq, Eq, Structural, PartialOrd, Ord, Hash)]
pub enum Enhancer {
    Cs2Overlay,
    Cs2StandaloneRadar,
}

pub open spec fn spec_artifact_to_execute(e: Enhancer) -> Artifact {
    match e {
        Enhancer::Cs2Overlay => Artifact::Cs2Overlay,
        Enhancer::Cs2StandaloneRadar => Artifact::Cs2RadarClient,
    }
}

impl Enhancer {
    /// The artifacts that must be present before the enhancer can start:
    /// its own executable, then the driver interface.
    pub fn required_artifacts(&self) -> (r: Vec<Artifact>)
        ensures
            r@ == seq![spec_artifact_to_execute(*self), Artifact::DriverInterfaceKernel],
    {
        match self {
            Enhancer::Cs2Overlay => vec![Artifact::Cs2Overlay, Artifact::DriverInterfaceKernel],
            Enhancer::Cs2StandaloneRadar => vec![Artifact::Cs2RadarClient, Artifact::DriverInterfaceKernel],
        }
    }

    /// The artifact that is started to run the enhancer.
    pub fn artifact_to_execute(&self) -> (r: Artifact)
        ensures
            r == spec_artifact_to_execute(*self),
    {
        match self {
            Enhancer::Cs2Overlay => Artifact::Cs2Overlay,
            Enhancer::Cs2StandaloneRadar => Artifact::Cs2RadarClient,
        }
    }
}

} // verus!
