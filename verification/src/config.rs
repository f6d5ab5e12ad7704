//! The configuration commands and what they ask for.

use vstd::prelude::*;

verus! {

/// The configuration subcommands.
#[derive(Clone, Debug, PartialEq, Eq)]
pub enum ConfigSubCommands {
    /// Add a config setting
    Add(SettingAddCmd),
    /// Remove a config setting
    Remove(SettingRemoveCmd),
    /// Remove all config settings
    Clear,
}

/// What can be added to the configuration.
#[derive(Clone, Debug, PartialEq, Eq)]
pub enum SettingAddCmd {
    Network {
        /// Network name
        network_name: String,
        /// Location of the network connection information. Without it the
        /// current network connection information is taken and cached.
        config_location: Option<String>,
    },
}

/// What can be removed from the configuration.
#[derive(Clone, Debug, PartialEq, Eq)]
pub enum SettingRemoveCmd {
    Network {
        /// Network to remove
        network_name: String,
    },
}

/// Where the connection information of a network is found.
#[derive(Clone, Debug, PartialEq, Eq)]
pub enum NetworkInfo {
    /// A file path or URL that holds it.
    ConnInfoLocation(String),
}

/// What a configuration command asks the holder of the settings to do.
#[derive(Clone, Debug, PartialEq, Eq)]
pub enum ConfigAction {
    /// Add a network under `network_name`; without `info`, cache the
    /// connection information in use.
    AddNetwork { network_name: String, info: Option<NetworkInfo> },
    /// Remove the network called `network_name`.
    RemoveNetwork { network_name: String },
    /// Remove all settings.
    Clear,
    /// Print the networks that are configured.
    PrintNetworks,
}

/// The action that a command stands for.
pub open spec fn config_action(cmd: Option<ConfigSubCommands>) -> ConfigAction {
    match cmd {
        Some(ConfigSubCommands::Add(SettingAddCmd::Network { network_name, config_location })) => {
            ConfigAction::AddNetwork {
                network_name,
                info: match config_location {
                    Some(location) => Some(NetworkInfo::ConnInfoLocation(location)),
                    None => None,
                },
            }
        },
        Some(ConfigSubCommands::Remove(SettingRemoveCmd::Network { network_name })) => {
            ConfigAction::RemoveNetwork { network_name }
        },
        Some(ConfigSubCommands::Clear) => ConfigAction::Clear,
        None => ConfigAction::PrintNetworks,
    }
}

/// Decides what a configuration command asks for. No command at all asks for
/// the list of networks.
pub fn config_commander(cmd: Option<ConfigSubCommands>) -> (action: ConfigAction)
    ensures
        action == config_action(cmd),
{
    match cmd {
        Some(ConfigSubCommands::Add(SettingAddCmd::Network { network_name, config_location })) => {
            let info = match config_location {
                Some(location) => Some(NetworkInfo::ConnInfoLocation(location)),
                None => None,
            };
            ConfigAction::AddNetwork { network_name, info }
        },
        Some(ConfigSubCommands::Remove(SettingRemoveCmd::Network { network_name })) => {
            ConfigAction::RemoveNetwork { network_name }
        },
        Some(ConfigSubCommands::Clear) => ConfigAction::Clear,
        None => ConfigAction::PrintNetworks,
    }
}

} // verus!
