//! From the description of a window to the configuration of its controller.
use vstd::prelude::*;
use crate::controller::{default_config, ConfigView, ControllerConfig};
use crate::text::{copy_all, views};
use crate::window_manager::{OptionsView, VersoWindowOptions};

verus! {

/// The configuration that window options enrich: a port of theirs wins, and their scripts come
/// after those that are there.
pub open spec fn enriched(base: ConfigView, opts: OptionsView) -> ConfigView {
    ConfigView {
        devtools_port: if opts.devtools_port is Some {
            opts.devtools_port
        } else {
            base.devtools_port
        },
        init_scripts: base.init_scripts + opts.initialization_scripts,
        ..base
    }
}

/// The configuration of a controller for window options; only the port and the scripts come from
/// them.
pub fn to_controller_config_from_options(opts: &VersoWindowOptions) -> (c: ControllerConfig)
    ensures
        c@ == (ConfigView {
            devtools_port: opts@.devtools_port,
            init_scripts: opts@.initialization_scripts,
            ..default_config()
        }),
{
    let mut cfg = ControllerConfig::default();
    cfg.devtools_port = opts.devtools_port;
    cfg.init_scripts = copy_all(&opts.initialization_scripts);
    cfg
}

/// Enriches a configuration with window options.
pub fn controller_config_with_base(base: ControllerConfig, opts: &VersoWindowOptions) -> (c:
    ControllerConfig)
    ensures
        c@ == enriched(base@, opts@),
{
    let mut cfg = base;
    match opts.devtools_port {
        Some(port) => {
            cfg.devtools_port = Some(port);
        },
        None => {},
    }
    let mut more = copy_all(&opts.initialization_scripts);
    cfg.init_scripts.append(&mut more);
    proof {
        assert(views(cfg.init_scripts@) =~= base@.init_scripts + opts@.initialization_scripts);
    }
    cfg
}

/// Mapping window options is the same as enriching a configuration in which nothing is set.
pub proof fn mapping_enriches_nothing(opts: OptionsView)
    ensures
        enriched(default_config(), opts) == (ConfigView {
            devtools_port: opts.devtools_port,
            init_scripts: opts.initialization_scripts,
            ..default_config()
        }),
{
    assert(Seq::<Seq<char>>::empty() + opts.initialization_scripts =~= opts.initialization_scripts);
}

/// Window options never touch the mode, the paths or the user agent of a configuration, and never
/// drop or reorder its scripts.
pub proof fn base_is_preserved(base: ConfigView, opts: OptionsView)
    ensures
        enriched(base, opts).mode == base.mode,
        enriched(base, opts).external_bin_path == base.external_bin_path,
        enriched(base, opts).resources_dir == base.resources_dir,
        enriched(base, opts).user_agent == base.user_agent,
        enriched(base, opts).unix_socket_path == base.unix_socket_path,
        base.init_scripts.is_prefix_of(enriched(base, opts).init_scripts),
{
    assert(enriched(base, opts).init_scripts.subrange(0, base.init_scripts.len() as int)
        =~= base.init_scripts);
}

} // verus!
