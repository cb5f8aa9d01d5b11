use nix_installer::action::{Action, ActionDescription, Actionable, StatefulAction};
use nix_installer::describe::{describe_action, render_plan};
use nix_installer::error::NixInstallerError;
use nix_installer::plan::InstallPlan;
use nix_installer::planner::Planner;
use nix_installer::settings::{comes_first, sort_settings};

#[derive(Debug)]
struct Named(&'static str);

impl Actionable for Named {
    type Error = String;

    fn tracing_synopsis(&self) -> String {
        String::from(self.0)
    }

    fn describe_execute(&self) -> Vec<ActionDescription> {
        vec![ActionDescription::new(
            format!("Create {}", self.0),
            vec![format!("{} is needed", self.0), String::from("It is made once")],
        )]
    }

    fn describe_revert(&self) -> Vec<ActionDescription> {
        vec![ActionDescription::new(format!("Remove {}", self.0), vec![String::from("It is not kept")])]
    }

    fn execute(&mut self) -> Result<(), String> {
        Ok(())
    }

    fn revert(&mut self) -> Result<(), String> {
        Ok(())
    }
}

#[derive(Debug, Default)]
struct Listed {
    all: Vec<(String, String)>,
    configured: Vec<(String, String)>,
    broken: bool,
}

impl Planner<Named> for Listed {
    type Error = String;
    type Diagnostic = ();

    fn diagnostic_data(&self) -> Result<Option<()>, String> {
        Ok(None)
    }

    fn typetag_name(&self) -> String {
        String::from("linux")
    }

    fn plan(&self) -> Result<Vec<StatefulAction<Action<Named>>>, String> {
        Ok(vec![
            StatefulAction::uncompleted(Action::Step(Named("users"))),
            StatefulAction::uncompleted(Action::Group {
                synopsis: String::from("Provision"),
                members: vec![
                    StatefulAction::uncompleted(Action::Step(Named("tree"))),
                    StatefulAction::uncompleted(Action::Step(Named("daemon"))),
                ],
            }),
        ])
    }

    fn settings(&self) -> Result<Vec<(String, String)>, String> {
        if self.broken {
            Err(String::from("settings are gone"))
        } else {
            Ok(self.all.clone())
        }
    }

    fn configured_settings(&self) -> Result<Vec<(String, String)>, String> {
        if self.broken {
            Err(String::from("settings are gone"))
        } else {
            Ok(self.configured.clone())
        }
    }
}

fn pair(key: &str, value: &str) -> (String, String) {
    (String::from(key), String::from(value))
}

fn sample() -> InstallPlan<Named, Listed> {
    InstallPlan::plan(Listed {
        all: vec![pair("modify_profile", "true"), pair("channels", "[]"), pair("force", "false")],
        configured: vec![],
        broken: false,
    })
    .unwrap()
}

fn configured() -> InstallPlan<Named, Listed> {
    let mut plan = sample();
    plan.planner.configured =
        vec![pair("modify_profile", "true"), pair("channels", "[]"), pair("force", "false")];
    plan
}

#[test]
fn describe_install_with_default_settings() {
    let text = sample().describe_install(false).unwrap();
    assert_eq!(
        text,
        "Nix install plan (v0.1.0)\n\
         Planner: linux (with default settings)\n\
         \n\
         Planned actions:\n\
         * Create users\n\
         * Create tree\n\
         * Create daemon\n"
    );
}

#[test]
fn describe_install_explained() {
    let text = configured().describe_install(true).unwrap();
    assert_eq!(
        text,
        "Nix install plan (v0.1.0)\n\
         Planner: linux\n\
         \n\
         Configured settings:\n\
         * \u{1b}[1mchannels\u{1b}[0m: []\n\
         * \u{1b}[1mforce\u{1b}[0m: false\n\
         * \u{1b}[1mmodify_profile\u{1b}[0m: true\n\
         \n\
         Planned actions:\n\
         * Create users\n  users is needed\n  It is made once\n\
         * Create tree\n  tree is needed\n  It is made once\n\
         * Create daemon\n  daemon is needed\n  It is made once\n"
    );
}

#[test]
fn describe_install_with_configured_settings() {
    let mut plan = sample();
    plan.planner.configured = vec![pair("z", "1"), pair("a", "2")];
    let text = plan.describe_install(false).unwrap();
    assert_eq!(
        text,
        "Nix install plan (v0.1.0)\n\
         Planner: linux\n\
         \n\
         Configured settings:\n\
         * \u{1b}[1ma\u{1b}[0m: 2\n\
         * \u{1b}[1mz\u{1b}[0m: 1\n\
         \n\
         Planned actions:\n\
         * Create users\n\
         * Create tree\n\
         * Create daemon\n"
    );
}

#[test]
fn describe_uninstall_with_default_settings() {
    let text = sample().describe_uninstall(false).unwrap();
    assert_eq!(
        text,
        "Nix uninstall plan (v0.1.0)\n\
         Planner: linux (with default settings)\n\
         \n\
         Planned actions:\n\
         * Remove daemon\n\
         * Remove tree\n\
         * Remove users\n"
    );
}

#[test]
fn describe_uninstall_explained() {
    let text = configured().describe_uninstall(true).unwrap();
    assert_eq!(
        text,
        "Nix uninstall plan (v0.1.0)\n\
         Planner: linux\n\
         \n\
         Configured settings:\n\
         * \u{1b}[1mchannels\u{1b}[0m: []\n\
         * \u{1b}[1mforce\u{1b}[0m: false\n\
         * \u{1b}[1mmodify_profile\u{1b}[0m: true\n\
         \n\
         Planned actions:\n\
         * Remove daemon\n  It is not kept\n\
         * Remove tree\n  It is not kept\n\
         * Remove users\n  It is not kept\n"
    );
}

#[test]
fn describe_reports_a_planner_failure() {
    let mut plan = sample();
    plan.planner.broken = true;
    assert!(matches!(plan.describe_install(false), Err(NixInstallerError::Planner(m)) if m == "settings are gone"));
    assert!(matches!(plan.describe_install(true), Err(NixInstallerError::Planner(_))));
    assert!(matches!(plan.describe_uninstall(false), Err(NixInstallerError::Planner(_))));
    assert!(matches!(plan.describe_uninstall(true), Err(NixInstallerError::Planner(_))));
}

#[test]
fn describe_with_given_settings_sorts_them() {
    let plan = sample();
    let text = plan.describe_install_with(vec![pair("b", "2"), pair("a", "1")], false);
    assert!(text.contains("* \u{1b}[1ma\u{1b}[0m: 1\n* \u{1b}[1mb\u{1b}[0m: 2\n\n"));
    let text = plan.describe_uninstall_with(vec![pair("b", "2"), pair("a", "1")], false);
    assert!(text.starts_with("Nix uninstall plan (v0.1.0)\nPlanner: linux\n\nConfigured settings:\n"));
    assert!(text.contains("* \u{1b}[1ma\u{1b}[0m: 1\n* \u{1b}[1mb\u{1b}[0m: 2\n\n"));
}

#[test]
fn render_plan_of_nothing() {
    let text = render_plan(false, "1.2.3", "p", &vec![], &vec![], true);
    assert_eq!(text, "Nix install plan (v1.2.3)\nPlanner: p (with default settings)\n\nPlanned actions:\n\n");
    let text = render_plan(true, "1.2.3", "p", &vec![], &vec![], false);
    assert_eq!(
        text,
        "Nix uninstall plan (v1.2.3)\nPlanner: p (with default settings)\n\nPlanned actions:\n\n"
    );
}

#[test]
fn render_plan_keeps_the_given_order() {
    let settings = vec![pair("b", "2"), pair("a", "1")];
    let descriptions = vec![
        ActionDescription::new(String::from("second"), vec![]),
        ActionDescription::new(String::from("first"), vec![String::from("why")]),
    ];
    let text = render_plan(false, "0.0.1", "p", &settings, &descriptions, true);
    assert_eq!(
        text,
        "Nix install plan (v0.0.1)\nPlanner: p\n\nConfigured settings:\n\
         * \u{1b}[1mb\u{1b}[0m: 2\n* \u{1b}[1ma\u{1b}[0m: 1\n\n\
         Planned actions:\n* second\n* first\n  why\n"
    );
}

#[test]
fn describe_action_with_and_without_explanation() {
    let description = ActionDescription::new(
        String::from("Create a directory"),
        vec![String::from("It holds the store"), String::from("It is owned by root")],
    );
    assert_eq!(describe_action(&description, false), "* Create a directory");
    assert_eq!(
        describe_action(&description, true),
        "* Create a directory\n  It holds the store\n  It is owned by root"
    );
    let bare = ActionDescription::new(String::from("Bare"), vec![]);
    assert_eq!(describe_action(&bare, true), "* Bare");
}

#[test]
fn comes_first_is_dictionary_order() {
    assert!(comes_first("", ""));
    assert!(comes_first("", "a"));
    assert!(!comes_first("a", ""));
    assert!(comes_first("a", "a"));
    assert!(comes_first("a", "b"));
    assert!(!comes_first("b", "a"));
    assert!(comes_first("ab", "abc"));
    assert!(!comes_first("abc", "ab"));
    assert!(comes_first("Z", "a"));
    assert!(comes_first("abd", "abé"));
    assert!(!comes_first("é", "z"));
}

#[test]
fn sort_settings_orders_by_key_and_keeps_every_entry() {
    let sorted = sort_settings(vec![
        pair("nix_build_group_name", "nixbld"),
        pair("channels", "[]"),
        pair("modify_profile", "true"),
        pair("channels", "again"),
        pair("", "empty"),
    ]);
    assert_eq!(
        sorted,
        vec![
            pair("", "empty"),
            pair("channels", "[]"),
            pair("channels", "again"),
            pair("modify_profile", "true"),
            pair("nix_build_group_name", "nixbld"),
        ]
    );
    assert!(sort_settings(vec![]).is_empty());
}

#[test]
fn settings_with_distinct_keys_have_one_order() {
    let one = sort_settings(vec![pair("c", "3"), pair("a", "1"), pair("b", "2")]);
    let other = sort_settings(vec![pair("b", "2"), pair("c", "3"), pair("a", "1")]);
    assert_eq!(one, other);
    assert_eq!(one, vec![pair("a", "1"), pair("b", "2"), pair("c", "3")]);
    let plan = sample();
    assert_eq!(
        plan.describe_install_with(vec![pair("c", "3"), pair("a", "1"), pair("b", "2")], true),
        plan.describe_install_with(vec![pair("b", "2"), pair("c", "3"), pair("a", "1")], true)
    );
}

#[test]
fn explain_lists_the_configured_settings_only() {
    let explained = sample().describe_install(true).unwrap();
    assert!(explained.starts_with(
        "Nix install plan (v0.1.0)\nPlanner: linux (with default settings)\n\nPlanned actions:\n"
    ));
    assert!(!explained.contains("Configured settings:"));
    let explained = sample().describe_uninstall(true).unwrap();
    assert!(explained.starts_with(
        "Nix uninstall plan (v0.1.0)\nPlanner: linux (with default settings)\n\nPlanned actions:\n"
    ));
}

#[test]
fn describing_twice_gives_the_same_text() {
    let plan = configured();
    assert_eq!(plan.describe_install(true).unwrap(), plan.describe_install(true).unwrap());
    assert_eq!(plan.describe_uninstall(false).unwrap(), plan.describe_uninstall(false).unwrap());
}

#[test]
fn settings_with_the_same_key_keep_their_order() {
    let sorted = sort_settings(vec![pair("k", "1"), pair("a", "0"), pair("k", "2"), pair("k", "3")]);
    assert_eq!(sorted, vec![pair("a", "0"), pair("k", "1"), pair("k", "2"), pair("k", "3")]);
}
