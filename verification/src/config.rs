//! The configuration that a manager is built from.

use vstd::prelude::*;
use crate::plugin::{PluginConfiguration, PluginConfigurationView};
use crate::text::optional_text;

verus! {

/// Mathematical model of a [`Configuration`].
pub struct ConfigurationView {
    pub default_plugin: Option<Seq<char>>,
    pub plugins: Seq<PluginConfigurationView>,
}

/// An already parsed configuration.
#[derive(Debug)]
pub struct Configuration {
    /// If absent, the first enabled plugin is the default one.
    pub default_plugin: Option<String>,
    /// The configured plugins, in declaration order.
    pub plugins: Vec<PluginConfiguration>,
}

/// The models of a sequence of plugin configurations, position by position.
pub open spec fn configuration_views(configs: Seq<PluginConfiguration>) -> Seq<
    PluginConfigurationView,
> {
    configs.map_values(|c: PluginConfiguration| c@)
}

impl View for Configuration {
    type V = ConfigurationView;

    open spec fn view(&self) -> ConfigurationView {
        ConfigurationView {
            default_plugin: optional_text(self.default_plugin),
            plugins: configuration_views(self.plugins@),
        }
    }
}

} // verus!
