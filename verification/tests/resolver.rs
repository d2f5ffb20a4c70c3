use deadball_shell::command::extraction_command;
use deadball_shell::resolver::{
    app_data_backend_dir, dev_absolute_path, exe_relative_path, extraction_parent_dir,
    last_resort_path, location_for_tier, resolver_start, resolver_step, template_archive_path,
    tier_log_line, ResolutionContext, ResolverState, Tier,
};

/// Deployment facts for one driven resolution run.
struct World {
    dev: bool,
    app_data: bool,
    archive: bool,
    extraction_ok: bool,
    exe_relative: bool,
}

/// Drives the chain the way a faithful host would, answering each
/// request from the world; returns the settled tier and every state
/// the chain passed through.
fn run_chain(w: &World) -> (Tier, Vec<ResolverState>) {
    let mut state = resolver_start();
    let mut visited = vec![state];
    loop {
        let answer = match state {
            ResolverState::ProbingDev => w.dev,
            ResolverState::ProbingAppData => w.app_data,
            ResolverState::ProbingArchive => w.archive,
            ResolverState::Extracting => w.extraction_ok,
            ResolverState::ProbingExeRelative => w.exe_relative,
            ResolverState::Resolved(t) => return (t, visited),
        };
        state = resolver_step(state, answer);
        visited.push(state);
    }
}

fn nothing_exists() -> World {
    World { dev: false, app_data: false, archive: false, extraction_ok: false, exe_relative: false }
}

#[test]
fn only_dev_checkout_wins() {
    let (t, _) = run_chain(&World { dev: true, ..nothing_exists() });
    assert_eq!(t, Tier::DevAbsolute);
}

#[test]
fn only_app_data_copy_wins() {
    let (t, _) = run_chain(&World { app_data: true, ..nothing_exists() });
    assert_eq!(t, Tier::AppDataCopy);
}

#[test]
fn only_template_archive_wins() {
    let (t, _) = run_chain(&World { archive: true, extraction_ok: true, ..nothing_exists() });
    assert_eq!(t, Tier::ExtractedTemplate);
}

#[test]
fn only_exe_relative_wins() {
    let (t, _) = run_chain(&World { exe_relative: true, ..nothing_exists() });
    assert_eq!(t, Tier::ExeRelative);
}

#[test]
fn dev_checkout_beats_everything() {
    let (t, _) = run_chain(&World {
        dev: true,
        app_data: true,
        archive: true,
        extraction_ok: true,
        exe_relative: true,
    });
    assert_eq!(t, Tier::DevAbsolute);
}

#[test]
fn existing_copy_skips_extraction() {
    let (t, visited) = run_chain(&World {
        app_data: true,
        archive: true,
        extraction_ok: true,
        ..nothing_exists()
    });
    assert_eq!(t, Tier::AppDataCopy);
    assert!(visited.iter().all(|s| *s != ResolverState::Extracting));
}

#[test]
fn failed_extraction_falls_through() {
    let (t, visited) = run_chain(&World {
        archive: true,
        extraction_ok: false,
        exe_relative: true,
        ..nothing_exists()
    });
    assert_eq!(t, Tier::ExeRelative);
    assert!(visited.contains(&ResolverState::Extracting));
}

#[test]
fn extraction_scenario_uses_app_data_destination() {
    // Candidates: dev absent, app-data copy absent, template archive
    // present, exe-relative absent.
    let (t, visited) = run_chain(&World { archive: true, extraction_ok: true, ..nothing_exists() });
    assert_eq!(t, Tier::ExtractedTemplate);
    assert!(visited.contains(&ResolverState::Extracting));

    let ctx = ResolutionContext {
        app_data_dir: Some(String::from("/home/u/.local/share/app")),
        resource_dir: Some(String::from("/opt/app/resources")),
        exe_dir: None,
    };
    let archive = template_archive_path(&ctx.resource_dir).unwrap();
    assert_eq!(archive, "/opt/app/resources/backend-template.tar.gz");
    let parent = extraction_parent_dir(&ctx.app_data_dir);
    assert_eq!(parent, "/home/u/.local/share/app");
    let c = extraction_command(archive.clone(), parent.clone());
    assert_eq!(c.program, "tar");
    assert_eq!(c.args, vec!["-xzf", archive.as_str(), "-C", parent.as_str()]);
    let location = location_for_tier(t, &ctx);
    assert_eq!(location, "/home/u/.local/share/app/backend");
}

#[test]
fn no_candidates_gives_last_resort() {
    let (t, _) = run_chain(&nothing_exists());
    assert_eq!(t, Tier::LastResort);
    let ctx = ResolutionContext { app_data_dir: None, resource_dir: None, exe_dir: None };
    assert_eq!(location_for_tier(t, &ctx), "../backend");
}

#[test]
fn candidate_paths_are_anchored() {
    assert_eq!(dev_absolute_path(), "/Users/steve/dev/web/deadball-web/backend");
    assert_eq!(last_resort_path(), "../backend");
    assert_eq!(app_data_backend_dir(&Some(String::from("/data"))), "/data/backend");
    assert_eq!(app_data_backend_dir(&None), "backend/backend");
    assert_eq!(extraction_parent_dir(&None), "backend");
    assert_eq!(template_archive_path(&None), None);
    assert_eq!(
        exe_relative_path(&Some(String::from("/opt/app/bin"))).unwrap(),
        "/opt/app/bin/../backend"
    );
    assert_eq!(exe_relative_path(&None), None);
}

#[test]
fn exe_relative_location_follows_exe_dir() {
    let ctx = ResolutionContext {
        app_data_dir: None,
        resource_dir: None,
        exe_dir: Some(String::from("/opt/app/bin")),
    };
    assert_eq!(location_for_tier(Tier::ExeRelative, &ctx), "/opt/app/bin/../backend");
}

#[test]
fn tier_decisions_are_logged() {
    assert_eq!(tier_log_line(Tier::DevAbsolute, "/d"), "Using dev backend path: /d");
    assert_eq!(tier_log_line(Tier::AppDataCopy, "/a"), "Using existing app data backend: /a");
    assert_eq!(
        tier_log_line(Tier::ExtractedTemplate, "/a"),
        "Extracted backend template to app data: /a"
    );
    assert_eq!(
        tier_log_line(Tier::ExeRelative, "/e"),
        "Using dev-relative backend path next to executable: /e"
    );
    assert_eq!(tier_log_line(Tier::LastResort, "../backend"), "Falling back to ../backend");
}
