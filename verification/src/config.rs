//! Configuration schema of the launcher and its defaults, and the
//! classification of the terminal-graphics probe.

use vstd::prelude::*;
use vstd::string::StringExecFns;

verus! {

/// Container-engine section.
#[derive(Clone, Debug)]
pub struct DockerConfig {
    pub enabled: bool,
    pub use_podman: bool,
    pub image: String,
}

/// Reverse-proxy section.
#[derive(Clone, Debug)]
pub struct FrpConfig {
    pub enabled: bool,
    pub client_path: String,
    pub config_path: String,
}

/// General launcher section.
#[derive(Clone, Debug)]
pub struct GeneralConfig {
    pub log_level: String,
    pub auto_restart: bool,
}

/// How images are rendered in the terminal.
#[derive(Clone, Copy, PartialEq, Eq, Structural, Debug)]
pub enum ImageMode {
    Protocol,
    Ascii,
    Unknown,
}

/// Appearance section.
#[derive(Clone, Debug)]
pub struct AppearanceConfig {
    pub image_render_mode: ImageMode,
}

/// The whole configuration file.
#[derive(Debug)]
pub struct MslConfig {
    pub docker: DockerConfig,
    pub frp: FrpConfig,
    pub msl: GeneralConfig,
    pub appearance: AppearanceConfig,
}

impl Default for MslConfig {
    /// The configuration written on first start: both optional subsystems
    /// off with their stock locations, informational logging, no automatic
    /// restart, and the image mode still unprobed.
    fn default() -> (c: Self)
        ensures
            !c.docker.enabled,
            !c.docker.use_podman,
            c.docker.image@ == "openjdk:21"@,
            !c.frp.enabled,
            c.frp.client_path@ == "./frpc"@,
            c.frp.config_path@ == "configs/MSL/frpc.ini"@,
            c.msl.log_level@ == "info"@,
            !c.msl.auto_restart,
            c.appearance.image_render_mode is Unknown,
    {
        MslConfig {
            docker: DockerConfig {
                enabled: false,
                use_podman: false,
                image: String::from_str("openjdk:21"),
            },
            frp: FrpConfig {
                enabled: false,
                client_path: String::from_str("./frpc"),
                config_path: String::from_str("configs/MSL/frpc.ini"),
            },
            msl: GeneralConfig { log_level: String::from_str("info"), auto_restart: false },
            appearance: AppearanceConfig { image_render_mode: ImageMode::Unknown },
        }
    }
}

/// Chooses how images are drawn.
pub struct ImageEngine;

impl ImageEngine {
    /// Classification of the terminal-graphics probe: a terminal that
    /// answered the protocol query renders images natively, any other
    /// falls back to ASCII art.
    pub fn mode_for_probe(protocol_supported: bool) -> (m: ImageMode)
        ensures
            m == (if protocol_supported {
                ImageMode::Protocol
            } else {
                ImageMode::Ascii
            }),
    {
        if protocol_supported {
            ImageMode::Protocol
        } else {
            ImageMode::Ascii
        }
    }
}

} // verus!
