use capnp_import::builder::builder_config;
use capnp_import::builder::builder_relative_path;
use capnp_import::builder::finish_build;
use capnp_import::discovery::evaluate_discovery;
use capnp_import::discovery::mismatch_warning;
use capnp_import::discovery::DiscoveryOutcome;
use capnp_import::errors::AcquireError;
use capnp_import::errors::DiscoveryError;
use capnp_import::errors::ProbeError;
use capnp_import::host::host_os_from_name;
use capnp_import::host::HostOs;
use capnp_import::location::AcquiredLocation;
use capnp_import::orchestrator::after_discovery;
use capnp_import::orchestrator::OrchestratorStep;
use capnp_import::required_version;

fn probed(path: &str, banner: &str) -> DiscoveryOutcome {
    DiscoveryOutcome::Probed {
        path: path.to_string(),
        banner: banner.to_string(),
    }
}

#[test]
fn system_match_is_acquired_without_build() {
    // A compiler on the path prints the required banner: discovery wins
    // and the orchestrator finishes without building.
    let outcome = probed("/usr/local/bin/capnp", "Cap'n Proto version 0.11.0\n");
    let r = evaluate_discovery(outcome, required_version());
    assert_eq!(
        r,
        Ok(AcquiredLocation::OnSystem("/usr/local/bin/capnp".to_string()))
    );
    let step = after_discovery(r, false);
    assert_eq!(
        step,
        OrchestratorStep::Acquired(AcquiredLocation::OnSystem(
            "/usr/local/bin/capnp".to_string()
        ))
    );
}

#[test]
fn version_mismatch_with_fallback_builds_locally() {
    // A wrong banner is a recoverable mismatch; with the offline policy
    // unset the orchestrator moves to building, and the builder that
    // installs into the output directory yields the platform layout.
    let outcome = probed("/usr/bin/capnp", "Cap'n Proto version 0.10.4\n");
    let r = evaluate_discovery(outcome, "0.11.0");
    let expected_err = DiscoveryError::VersionMismatch {
        found: "Cap'n Proto version 0.10.4\n".to_string(),
        required: "0.11.0".to_string(),
    };
    assert_eq!(r, Err(expected_err.clone()));

    let warning = mismatch_warning("Cap'n Proto version 0.10.4\n", "0.11.0");
    assert!(warning.contains("0.10.4"));
    assert!(warning.contains("0.11.0"));
    assert!(warning.starts_with("cargo:warning="));

    let step = after_discovery(r, false);
    assert_eq!(step, OrchestratorStep::Build(expected_err));

    let built = finish_build(HostOs::Linux, "/out", "/out");
    assert_eq!(
        built,
        Ok(AcquiredLocation::Locally("bin/capnp".to_string()))
    );
}

#[test]
fn version_mismatch_under_offline_policy_aborts() {
    // The same wrong banner with the offline policy set is fatal, and
    // the abort quotes the mismatch it refused.
    let outcome = probed("/usr/bin/capnp", "Cap'n Proto version 0.10.4\n");
    let r = evaluate_discovery(outcome, "0.11.0");
    let step = after_discovery(r, true);
    assert_eq!(
        step,
        OrchestratorStep::Abort(AcquireError::DenyNetFetchAbort(
            DiscoveryError::VersionMismatch {
                found: "Cap'n Proto version 0.10.4\n".to_string(),
                required: "0.11.0".to_string(),
            }
        ))
    );
}

#[test]
fn no_system_compiler_builds_linux_layout() {
    // Nothing on the path: the orchestrator builds, and on linux the
    // emitted location is exactly the linux install layout.
    let r = evaluate_discovery(DiscoveryOutcome::NotFound, "0.11.0");
    assert_eq!(r, Err(DiscoveryError::NotFound));
    let step = after_discovery(r, false);
    assert_eq!(step, OrchestratorStep::Build(DiscoveryError::NotFound));
    let built = finish_build(HostOs::Linux, "/out", "/out");
    assert_eq!(
        built,
        Ok(AcquiredLocation::Locally("bin/capnp".to_string()))
    );
}

#[test]
fn offline_policy_with_no_compiler_never_reaches_the_builder() {
    // The offline policy turns a missing compiler into an abort; the
    // step that would invoke the builder is never produced.
    let r = evaluate_discovery(DiscoveryOutcome::NotFound, "0.11.0");
    let step = after_discovery(r, true);
    assert!(!matches!(step, OrchestratorStep::Build(_)));
    assert_eq!(
        step,
        OrchestratorStep::Abort(AcquireError::DenyNetFetchAbort(DiscoveryError::NotFound))
    );
}

#[test]
fn unreadable_probe_is_recoverable() {
    for probe in [ProbeError::Io, ProbeError::Decode, ProbeError::Exit] {
        let r = evaluate_discovery(DiscoveryOutcome::Unreadable(probe), "0.11.0");
        assert_eq!(r, Err(DiscoveryError::Unreadable(probe)));
        let step = after_discovery(r, false);
        assert_eq!(
            step,
            OrchestratorStep::Build(DiscoveryError::Unreadable(probe))
        );
    }
}

#[test]
fn install_prefix_mismatch_is_fatal() {
    // The builder installed somewhere other than the output directory.
    let built = finish_build(HostOs::Linux, "/out", "/somewhere/else");
    assert_eq!(
        built,
        Err(AcquireError::InstallPrefixMismatch {
            expected: "/out".to_string(),
            actual: "/somewhere/else".to_string(),
        })
    );
}

#[test]
fn builder_config_per_host() {
    let linux = builder_config(HostOs::Linux, true);
    assert!(linux.use_ninja);
    assert!(!linux.cxxflag_ehsc);
    assert!(!linux.build_testing);

    let windows = builder_config(HostOs::Windows, false);
    assert!(!windows.use_ninja);
    assert!(windows.cxxflag_ehsc);
    assert!(!windows.build_testing);
}

#[test]
fn install_layout_per_host() {
    assert_eq!(builder_relative_path(HostOs::Linux), "bin/capnp");
    assert_eq!(builder_relative_path(HostOs::MacOs), "bin/capnp");
    assert_eq!(builder_relative_path(HostOs::Windows), "bin/capnp.exe");
}

#[test]
fn unsupported_host_is_fatal_and_named() {
    let r = host_os_from_name("freebsd");
    assert_eq!(
        r,
        Err(AcquireError::UnsupportedHostOs("freebsd".to_string()))
    );
}

#[test]
fn supported_hosts_are_classified() {
    assert_eq!(host_os_from_name("linux"), Ok(HostOs::Linux));
    assert_eq!(host_os_from_name("macos"), Ok(HostOs::MacOs));
    assert_eq!(host_os_from_name("windows"), Ok(HostOs::Windows));
}
