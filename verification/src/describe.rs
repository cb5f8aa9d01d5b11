//! The text that describes a plan before it is carried out or undone.

use crate::action::{description_views, ActionDescription, ActionDescriptionView};
use crate::settings::setting_views;
use owo_colors::OwoColorize;
use vstd::prelude::*;
use vstd::string::StringExecFns;

verus! {

/// `text` between the escape sequences that switch bold on and off.
pub open spec fn bold_text(text: Seq<char>) -> Seq<char> {
    "\x1b[1m"@ + text + "\x1b[0m"@
}

/// Formats `text` through `owo_colors::OwoColorize::bold`, which writes the
/// escape sequence for bold, then the text, then the escape sequence that
/// resets the style.
#[verifier::external_body]
fn bold(text: &str) -> (styled: String)
    ensures
        styled@ == bold_text(text@),
{
    format!("{}", text.bold())
}

/// The first `count` of `lines`, with a line break between each two.
pub open spec fn joined(lines: Seq<Seq<char>>, count: nat) -> Seq<char>
    decreases count,
{
    if count == 0 || count > lines.len() {
        Seq::empty()
    } else if count == 1 {
        lines[0]
    } else {
        joined(lines, (count - 1) as nat) + "\n"@ + lines[count - 1]
    }
}

/// The line for one setting: a bullet, the key in bold, a colon, the value.
pub open spec fn setting_line(entry: (Seq<char>, Seq<char>)) -> Seq<char> {
    "* "@ + bold_text(entry.0) + ": "@ + entry.1
}

/// The lines for `settings`, in their order.
pub open spec fn setting_lines(settings: Seq<(Seq<char>, Seq<char>)>) -> Seq<Seq<char>> {
    settings.map_values(|entry: (Seq<char>, Seq<char>)| setting_line(entry))
}

/// The first `count` lines of an explanation, each on a line of its own,
/// indented by two spaces.
pub open spec fn explanation_text(lines: Seq<Seq<char>>, count: nat) -> Seq<char>
    decreases count,
{
    if count == 0 || count > lines.len() {
        Seq::empty()
    } else {
        explanation_text(lines, (count - 1) as nat) + "\n  "@ + lines[count - 1]
    }
}

/// The entry for one description: a bullet and the summary, followed by the
/// explanation when `explain` is set.
pub open spec fn description_line(description: ActionDescriptionView, explain: bool) -> Seq<char> {
    "* "@ + description.description + if explain {
        explanation_text(description.explanation, description.explanation.len())
    } else {
        Seq::empty()
    }
}

/// The entries for `descriptions`, in their order.
pub open spec fn description_lines(descriptions: Seq<ActionDescriptionView>, explain: bool) -> Seq<
    Seq<char>,
> {
    descriptions.map_values(|d: ActionDescriptionView| description_line(d, explain))
}

/// The first line of the text: what the plan is for, and its version.
pub open spec fn heading(uninstall: bool, version: Seq<char>) -> Seq<char> {
    if uninstall {
        "Nix uninstall plan (v"@ + version + ")\n"@
    } else {
        "Nix install plan (v"@ + version + ")\n"@
    }
}

/// The note that follows the planner's name when no setting is listed.
pub open spec fn default_note(settings: Seq<(Seq<char>, Seq<char>)>) -> Seq<char> {
    if settings.len() == 0 {
        " (with default settings)"@
    } else {
        Seq::empty()
    }
}

/// The block that lists the settings; nothing when there are none.
pub open spec fn settings_block(settings: Seq<(Seq<char>, Seq<char>)>) -> Seq<char> {
    if settings.len() == 0 {
        Seq::empty()
    } else {
        "Configured settings:\n"@ + joined(setting_lines(settings), settings.len()) + "\n\n"@
    }
}

/// The whole text: heading, planner, settings in the order given, and the
/// descriptions in the order given.
pub open spec fn plan_text(
    uninstall: bool,
    version: Seq<char>,
    planner: Seq<char>,
    settings: Seq<(Seq<char>, Seq<char>)>,
    descriptions: Seq<ActionDescriptionView>,
    explain: bool,
) -> Seq<char> {
    heading(uninstall, version) + "Planner: "@ + planner + default_note(settings) + "\n\n"@
        + settings_block(settings) + "Planned actions:\n"@ + joined(
        description_lines(descriptions, explain),
        descriptions.len(),
    ) + "\n"@
}

/// Writes the entry for one description.
pub fn describe_action(description: &ActionDescription, explain: bool) -> (text: String)
    ensures
        text@ == description_line(description@, explain),
{
    let mut text = String::from_str("* ");
    text.append(description.description.as_str());
    if explain {
        let ghost lines = description@.explanation;
        let ghost start = text@;
        let mut i: usize = 0;
        while i < description.explanation.len()
            invariant
                i <= description.explanation.len(),
                lines == description@.explanation,
                lines.len() == description.explanation.len(),
                text@ == start + explanation_text(lines, i as nat),
            decreases description.explanation.len() - i,
        {
            text.append("\n  ");
            text.append(description.explanation[i].as_str());
            i += 1;
        }
    }
    text
}

/// Appends the lines for `settings` to `text`.
fn append_settings(text: &mut String, settings: &Vec<(String, String)>)
    ensures
        final(text)@ == old(text)@ + joined(
            setting_lines(setting_views(settings@)),
            settings@.len(),
        ),
{
    let ghost start = text@;
    let ghost lines = setting_lines(setting_views(settings@));
    let mut i: usize = 0;
    while i < settings.len()
        invariant
            i <= settings.len(),
            lines == setting_lines(setting_views(settings@)),
            text@ == start + joined(lines, i as nat),
        decreases settings.len() - i,
    {
        if i > 0 {
            text.append("\n");
        }
        let key = bold(settings[i].0.as_str());
        text.append("* ");
        text.append(key.as_str());
        text.append(": ");
        text.append(settings[i].1.as_str());
        i += 1;
    }
}

/// Appends the entries for `descriptions` to `text`.
fn append_descriptions(text: &mut String, descriptions: &Vec<ActionDescription>, explain: bool)
    ensures
        final(text)@ == old(text)@ + joined(
            description_lines(description_views(descriptions@), explain),
            descriptions@.len(),
        ),
{
    let ghost start = text@;
    let ghost lines = description_lines(description_views(descriptions@), explain);
    let mut i: usize = 0;
    while i < descriptions.len()
        invariant
            i <= descriptions.len(),
            lines == description_lines(description_views(descriptions@), explain),
            text@ == start + joined(lines, i as nat),
        decreases descriptions.len() - i,
    {
        if i > 0 {
            text.append("\n");
        }
        let entry = describe_action(&descriptions[i], explain);
        text.append(entry.as_str());
        i += 1;
    }
}

/// Writes the text that describes a plan: for an install, or with
/// `uninstall` set for an uninstall. Settings and descriptions appear in the
/// order in which they are given.
pub fn render_plan(
    uninstall: bool,
    version: &str,
    planner: &str,
    settings: &Vec<(String, String)>,
    descriptions: &Vec<ActionDescription>,
    explain: bool,
) -> (text: String)
    ensures
        text@ == plan_text(
            uninstall,
            version@,
            planner@,
            setting_views(settings@),
            description_views(descriptions@),
            explain,
        ),
{
    let mut text = if uninstall {
        String::from_str("Nix uninstall plan (v")
    } else {
        String::from_str("Nix install plan (v")
    };
    text.append(version);
    text.append(")\n");
    text.append("Planner: ");
    text.append(planner);
    if settings.len() == 0 {
        text.append(" (with default settings)");
    }
    text.append("\n\n");
    if settings.len() > 0 {
        text.append("Configured settings:\n");
        append_settings(&mut text, settings);
        text.append("\n\n");
    }
    text.append("Planned actions:\n");
    append_descriptions(&mut text, descriptions, explain);
    text.append("\n");
    text
}

} // verus!
