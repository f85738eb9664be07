//! What the models show: every part of the values that the contracts speak of.

use vstd::prelude::*;

use crate::effects::{Deed, Effect};
use crate::install::{InstallEvent, InstallEventModel, Integration, SiteInstallCommand};
use crate::kwin::{KwinStage, KwinStageModel, Plan};
use crate::launch::{LaunchEvent, LaunchEventModel, SiteLaunchCommand};
use crate::lifecycle::{RunEvent, RunEventModel, Sight, SightModel};
use crate::options::Options;
use crate::storage::{Profile, ProtocolHandler, Site, SiteConfig, Storage};
use crate::tray::{MenuEntry, MenuEntryModel};
use crate::uninstall::{UninstallEvent, UninstallEventModel};
use crate::update::{SiteUpdateCommand, UpdateEvent, UpdateEventModel};

verus! {

/// Every setting of a web app is shown.
pub proof fn law_settings_are_shown(config: SiteConfig)
    ensures
        config@.name == config.name.deep_view(),
        config@.description == config.description.deep_view(),
        config@.categories == config.categories.deep_view(),
        config@.keywords == config.keywords.deep_view(),
        config@.document_url == config.document_url@,
        config@.manifest_url == config.manifest_url@,
        config@.start_url == config.start_url.deep_view(),
        config@.icon_url == config.icon_url.deep_view(),
        config@.enabled_url_handlers == config.enabled_url_handlers.deep_view(),
        config@.enabled_protocol_handlers == config.enabled_protocol_handlers.deep_view(),
        config@.custom_protocol_handlers == config.custom_protocol_handlers.deep_view(),
        config@.launch_on_login == config.launch_on_login,
        config@.launch_on_browser == config.launch_on_browser,
        config@.webapp_id == config.webapp_id,
        config@.external_links == config.external_links,
        config@.allowed_domains == config.allowed_domains.deep_view(),
        config@.hardware_webrtc == config.hardware_webrtc,
        config@.software_rendering == config.software_rendering,
        config@.scheduling == config.scheduling.deep_view(),
        config@.user_agent == config.user_agent.deep_view(),
        config@.start_hidden == config.start_hidden,
{
}

/// Everything that a command to launch says is shown.
pub proof fn law_a_launch_command_is_shown(command: SiteLaunchCommand)
    ensures
        command@.id == command.id,
        command@.url == command.url.deep_view(),
        command@.protocol == command.protocol.deep_view(),
        command@.arguments == command.arguments.deep_view(),
        command@.hidden == command.hidden,
        command@.direct_launch == command.direct_launch,
{
}

/// Everything that a command to install says is shown.
pub proof fn law_an_install_command_is_shown(command: SiteInstallCommand)
    ensures
        command@.manifest_url == command.manifest_url@,
        command@.document_url == command.document_url.deep_view(),
        command@.start_url == command.start_url.deep_view(),
        command@.icon_url == command.icon_url.deep_view(),
        command@.profile == command.profile,
        command@.name == command.name.deep_view(),
        command@.description == command.description.deep_view(),
        command@.categories == command.categories.deep_view(),
        command@.keywords == command.keywords.deep_view(),
        command@.launch_on_login == command.launch_on_login,
        command@.launch_on_browser == command.launch_on_browser,
        command@.hardware_webrtc == command.hardware_webrtc,
        command@.software_rendering == command.software_rendering,
        command@.scheduling == command.scheduling.deep_view(),
        command@.system_integration == command.system_integration,
        command@.launch_now == command.launch_now,
{
}

/// Everything that a command to update says is shown.
pub proof fn law_an_update_command_is_shown(command: SiteUpdateCommand)
    ensures
        command@.id == command.id,
        command@.name == command.name.deep_view(),
        command@.description == command.description.deep_view(),
        command@.start_url == command.start_url.deep_view(),
        command@.icon_url == command.icon_url.deep_view(),
        command@.categories == command.categories.deep_view(),
        command@.keywords == command.keywords.deep_view(),
        command@.enabled_url_handlers == command.enabled_url_handlers.deep_view(),
        command@.enabled_protocol_handlers == command.enabled_protocol_handlers.deep_view(),
        command@.launch_on_login == command.launch_on_login,
        command@.launch_on_browser == command.launch_on_browser,
        command@.hardware_webrtc == command.hardware_webrtc,
        command@.software_rendering == command.software_rendering,
        command@.scheduling == command.scheduling.deep_view(),
        command@.user_agent == command.user_agent.deep_view(),
        command@.start_hidden == command.start_hidden,
        command@.update_manifest == command.update_manifest,
        command@.update_icons == command.update_icons,
        command@.system_integration == command.system_integration,
{
}

/// Everything that the desktop is asked for is shown.
pub proof fn law_an_integration_is_shown(integration: Integration)
    ensures
        integration@.update_manifest == integration.update_manifest,
        integration@.update_icons == integration.update_icons,
        integration@.old_name == integration.old_name.deep_view(),
{
}

/// Every option of a tray is shown.
pub proof fn law_options_are_shown(opts: Options)
    ensures
        opts@.id == opts.id@,
        opts@.name == opts.name@,
        opts@.icon == opts.icon@,
        opts@.wmclass == opts.wmclass@,
        opts@.command == opts.command@,
        opts@.rt == opts.rt@,
        opts@.unread_file == opts.unread_file@,
        opts@.hide_file == opts.hide_file@,
        opts@.show_file == opts.show_file@,
        opts@.hidden_file == opts.hidden_file@,
        opts@.running_file == opts.running_file@,
{
}

/// Everything of a web app is shown.
pub proof fn law_a_web_app_is_shown(site: Site)
    ensures
        site@.ulid == site.ulid,
        site@.profile == site.profile,
        site@.config == site.config@,
        site@.handlers.len() == site.manifest.protocol_handlers.len(),
        forall|i: int|
            0 <= i < site@.handlers.len() ==> #[trigger] site@.handlers[i]
                == site.manifest.protocol_handlers[i].deep_view(),
{
}

/// Both parts of a handler are shown.
pub proof fn law_a_handler_is_shown(handler: ProtocolHandler)
    ensures
        handler.deep_view().protocol == handler.protocol@,
        handler.deep_view().url == handler.url.deep_view(),
{
}

/// Both parts of a profile are shown.
pub proof fn law_a_profile_is_shown(profile: Profile)
    ensures
        profile@.ulid == profile.ulid,
        profile@.sites == profile.sites@,
{
}

/// Everything that is kept is shown, each profile and each web app under its own identifier.
pub proof fn law_the_storage_is_shown(storage: Storage, id: u128)
    ensures
        storage@.arguments == storage.arguments.deep_view(),
        storage@.variables == storage.variables@,
        storage@.use_linked_runtime == storage.use_linked_runtime,
        storage@.profiles.contains_key(id) <==> storage.profiles@.contains_key(id),
        storage.profiles@.contains_key(id) ==> storage@.profiles[id] == storage.profiles@[id]@,
        storage@.sites.contains_key(id) <==> storage.sites@.contains_key(id),
        storage.sites@.contains_key(id) ==> storage@.sites[id] == storage.sites@[id]@,
{
}

/// An effect is shown as what it is, with all that belongs to it.
pub proof fn law_an_effect_is_shown(a: String, b: String, words: Vec<String>, n: u64, status: i32)
    ensures
        Effect::Log(a).deep_view() == Deed::Log(a@),
        Effect::Complain(a).deep_view() == Deed::Complain(a@),
        Effect::Write(a, b).deep_view() == Deed::Write(a@, b@),
        Effect::Remove(a).deep_view() == Deed::Remove(a@),
        Effect::Script(a).deep_view() == Deed::Script(a@),
        Effect::Start(words).deep_view() == Deed::Start(words.deep_view()),
        Effect::Call(words).deep_view() == Deed::Call(words.deep_view()),
        Effect::Refresh.deep_view() == Deed::Refresh,
        Effect::Sleep(n).deep_view() == Deed::Sleep(n),
        Effect::Exit(status).deep_view() == Deed::Exit(status),
{
}

/// What came of a step is shown as what it is, with all that belongs to it.
pub proof fn law_events_are_shown(
    site: Site,
    answer: String,
    flag: bool,
    system: Vec<u8>,
    linked: Vec<u8>,
)
    ensures
        InstallEvent::Done@ == InstallEventModel::Done,
        InstallEvent::Fetched(site)@ == InstallEventModel::Fetched(site@),
        UninstallEvent::Done@ == UninstallEventModel::Done,
        UninstallEvent::Answered(answer)@ == UninstallEventModel::Answered(answer@),
        UpdateEvent::Done@ == UpdateEventModel::Done,
        UpdateEvent::Fetched(site.manifest)@ == UpdateEventModel::Fetched(site@.handlers),
        LaunchEvent::Done@ == LaunchEventModel::Done,
        LaunchEvent::Answered(flag)@ == LaunchEventModel::Answered(flag),
        LaunchEvent::Opened(flag)@ == LaunchEventModel::Opened(flag),
        LaunchEvent::Compared(system, linked)@ == LaunchEventModel::Compared(system@, linked@),
{
}

/// What a tray has seen is shown as what it is, with all that belongs to it.
pub proof fn law_sights_are_shown(
    contents: Option<String>,
    present: Vec<String>,
    words: Vec<String>,
    elapsed: u128,
    own: u32,
    registered: bool,
)
    ensures
        Sight::Runtime(contents, present, elapsed)@ == SightModel::Runtime(
            contents.deep_view(),
            present.deep_view(),
            elapsed,
        ),
        Sight::HideRequest(present)@ == SightModel::HideRequest(present.deep_view()),
        Sight::ShowRequest(present)@ == SightModel::ShowRequest(present.deep_view()),
        Sight::Unread(contents, registered)@ == SightModel::Unread(
            contents.deep_view(),
            registered,
        ),
        RunEvent::Begin@ == RunEventModel::Begin,
        RunEvent::Guarded(contents, present, words, own)@ == RunEventModel::Guarded(
            contents.deep_view(),
            present.deep_view(),
            words.deep_view(),
            own,
        ),
        RunEvent::Counted(contents)@ == RunEventModel::Counted(contents.deep_view()),
        RunEvent::Ended@ == RunEventModel::Ended,
{
}

/// A plan, a stage of a script's run and an entry of the menu are shown with all their parts.
pub proof fn law_parts_are_shown(plan: Plan, stage: KwinStage, entry: MenuEntry)
    ensures
        plan@.guard == plan.guard,
        plan@.guarded == plan.guarded@,
        plan@.always == plan.always@,
        match stage {
            KwinStage::Write => stage@ == KwinStageModel::Write,
            KwinStage::Load(tool) => stage@ == KwinStageModel::Load(tool),
            KwinStage::Run(tool, id) => stage@ == KwinStageModel::Run(tool, id@),
            KwinStage::Unload(tool) => stage@ == KwinStageModel::Unload(tool),
            KwinStage::Finished => stage@ == KwinStageModel::Finished,
        },
        match entry {
            MenuEntry::Item { label, icon_name, action } => entry.deep_view()
                == (MenuEntryModel::Item { label: label@, icon_name: icon_name@, action }),
            MenuEntry::Separator => entry.deep_view() == MenuEntryModel::Separator,
        },
{
}

} // verus!
