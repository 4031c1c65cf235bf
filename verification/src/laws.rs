//! Laws of the manager that hold across its functions, stated over the
//! models that the functions' contracts use.

use vstd::prelude::*;
use crate::plugin::{PluginConfigurationView, PluginView, fresh_plugin};
use crate::pm::{
    after_batch_start, batch_exit_errors, batch_launches, batch_start_errors, enabled_count,
    first_enabled, has_name, lemma_unique_position, loaded_count, missing_count, names_unique,
    registry_of, resolved_default, seen, unreachable_count,
};

verus! {

/// No plugin is enabled exactly where there is no first enabled plugin.
pub proof fn lemma_first_enabled_none(configs: Seq<PluginConfigurationView>)
    ensures
        first_enabled(configs) is None <==> forall|j: int|
            0 <= j < configs.len() ==> !(#[trigger] configs[j]).enabled,
    decreases configs.len(),
{
    if configs.len() > 0 {
        let front = configs.drop_last();
        lemma_first_enabled_none(front);
        if first_enabled(configs) is None {
            assert forall|j: int| 0 <= j < configs.len() implies !(#[trigger] configs[j]).enabled by {
                if j < front.len() {
                    assert(front[j] == configs[j]);
                }
            }
        } else if first_enabled(front) is Some {
            let j = choose|j: int| 0 <= j < front.len() && (#[trigger] front[j]).enabled;
            assert(configs[j].enabled);
        } else {
            assert(configs.last().enabled);
        }
    }
}

/// The first enabled plugin is the enabled plugin that no enabled plugin
/// precedes in declaration order.
pub proof fn lemma_first_enabled_least(configs: Seq<PluginConfigurationView>, i: int)
    requires
        0 <= i < configs.len(),
        configs[i].enabled,
        forall|j: int| 0 <= j < i ==> !(#[trigger] configs[j]).enabled,
    ensures
        first_enabled(configs) == Some(configs[i].name),
    decreases configs.len(),
{
    let front = configs.drop_last();
    if i == configs.len() - 1 {
        lemma_first_enabled_none(front);
    } else {
        lemma_first_enabled_least(front, i);
    }
}

/// With no default configured and at least one plugin enabled, the default
/// resolves to the first enabled plugin in declaration order.
pub proof fn lemma_default_is_first_enabled(configs: Seq<PluginConfigurationView>, i: int)
    requires
        0 <= i < configs.len(),
        configs[i].enabled,
        forall|j: int| 0 <= j < i ==> !(#[trigger] configs[j]).enabled,
    ensures
        resolved_default(None, configs) == Some(configs[i].name),
{
    lemma_first_enabled_least(configs, i);
}

/// A configuration resolves to no default exactly where none is configured
/// and no plugin is enabled.
pub proof fn lemma_no_default_iff(
    default_plugin: Option<Seq<char>>,
    configs: Seq<PluginConfigurationView>,
)
    ensures
        resolved_default(default_plugin, configs) is None <==> (default_plugin is None && forall|
            j: int,
        |
            0 <= j < configs.len() ==> !(#[trigger] configs[j]).enabled),
{
    lemma_first_enabled_none(configs);
}

/// In the registry of a configuration every name stands once, every
/// configured name stands, and every plugin is not loaded.
pub proof fn lemma_registry(configs: Seq<PluginConfigurationView>)
    ensures
        names_unique(registry_of(configs)),
        registry_of(configs).len() <= configs.len(),
        forall|i: int|
            0 <= i < configs.len() ==> has_name(registry_of(configs), (#[trigger] configs[i]).name),
        forall|k: int|
            0 <= k < registry_of(configs).len() ==> !(#[trigger] registry_of(configs)[k]).loaded,
    decreases configs.len(),
{
    if configs.len() > 0 {
        let front = configs.drop_last();
        let before = registry_of(front);
        let plugin = fresh_plugin(configs.last());
        let after = registry_of(configs);
        lemma_registry(front);
        if has_name(before, plugin.name) {
            let seen_at = choose|w: int| 0 <= w < before.len() && (#[trigger] before[w]).name
                == plugin.name;
            lemma_unique_position(before, plugin.name, seen_at);
            assert forall|i: int| 0 <= i < configs.len() implies has_name(
                after,
                (#[trigger] configs[i]).name,
            ) by {
                if i < front.len() {
                    let k = choose|w: int| 0 <= w < before.len() && (#[trigger] before[w]).name
                        == front[i].name;
                    assert(after[k].name == configs[i].name);
                } else {
                    assert(after[seen_at].name == configs[i].name);
                }
            }
        } else {
            assert forall|i: int| 0 <= i < configs.len() implies has_name(
                after,
                (#[trigger] configs[i]).name,
            ) by {
                if i < front.len() {
                    let k = choose|w: int| 0 <= w < before.len() && (#[trigger] before[w]).name
                        == front[i].name;
                    assert(after[k].name == configs[i].name);
                } else {
                    assert(after[before.len() as int].name == configs[i].name);
                }
            }
        }
    }
}

/// With no default configured and at least one plugin enabled, the resolved
/// default names a plugin of the registry.
pub proof fn lemma_default_is_registered(configs: Seq<PluginConfigurationView>)
    requires
        first_enabled(configs) is Some,
    ensures
        has_name(registry_of(configs), resolved_default(None, configs).unwrap()),
{
    lemma_first_enabled_none(configs);
    let i = choose|i: int|
        0 <= i < configs.len() && (#[trigger] configs[i]).enabled && forall|j: int|
            0 <= j < i ==> !(#[trigger] configs[j]).enabled;
    lemma_least_enabled_exists(configs);
    lemma_first_enabled_least(configs, i);
    lemma_registry(configs);
}

/// Where some plugin is enabled, one enabled plugin has no enabled plugin
/// before it.
pub proof fn lemma_least_enabled_exists(configs: Seq<PluginConfigurationView>)
    requires
        first_enabled(configs) is Some,
    ensures
        exists|i: int|
            0 <= i < configs.len() && (#[trigger] configs[i]).enabled && forall|j: int|
                0 <= j < i ==> !(#[trigger] configs[j]).enabled,
    decreases configs.len(),
{
    let front = configs.drop_last();
    if first_enabled(front) is Some {
        lemma_least_enabled_exists(front);
        let i = choose|i: int|
            0 <= i < front.len() && (#[trigger] front[i]).enabled && forall|j: int|
                0 <= j < i ==> !(#[trigger] front[j]).enabled;
        assert forall|j: int| 0 <= j < i implies !(#[trigger] configs[j]).enabled by {
            assert(configs[j] == front[j]);
        }
    } else {
        lemma_first_enabled_none(front);
        let i = configs.len() - 1;
        assert forall|j: int| 0 <= j < i implies !(#[trigger] configs[j]).enabled by {
            assert(configs[j] == front[j]);
        }
    }
}

/// A batch start over N enabled plugins, M of them with an executable that
/// was not seen, gives exactly M errors and N - M launch requests, and every
/// enabled plugin whose executable was seen is loaded afterwards.
pub proof fn lemma_batch_start_counts(plugins: Seq<PluginView>, present: Seq<bool>)
    ensures
        batch_start_errors(plugins, present).len() == missing_count(plugins, present),
        batch_launches(plugins, present).len() == enabled_count(plugins) - missing_count(
            plugins,
            present,
        ),
        missing_count(plugins, present) <= enabled_count(plugins) <= plugins.len(),
        forall|i: int|
            0 <= i < plugins.len() && (#[trigger] plugins[i]).enabled && seen(present, i)
                ==> after_batch_start(plugins[i], seen(present, i)).loaded,
    decreases plugins.len(),
{
    if plugins.len() > 0 {
        lemma_batch_start_counts(plugins.drop_last(), present);
    }
}

/// A batch stop over plugins of which K are loaded, J of those with an
/// observed failure, gives exactly J errors; a plugin that is not loaded
/// gives none.
pub proof fn lemma_batch_exit_counts(
    plugins: Seq<PluginView>,
    outcomes: Seq<Option<Seq<char>>>,
)
    ensures
        batch_exit_errors(plugins, outcomes).len() == unreachable_count(plugins, outcomes),
        unreachable_count(plugins, outcomes) <= loaded_count(plugins) <= plugins.len(),
        loaded_count(plugins) == 0 ==> batch_exit_errors(plugins, outcomes).len() == 0,
    decreases plugins.len(),
{
    if plugins.len() > 0 {
        lemma_batch_exit_counts(plugins.drop_last(), outcomes);
    }
}

} // verus!
