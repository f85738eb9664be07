//! What holds of launches as a whole.

use vstd::prelude::*;

use crate::effects::Deed;
use crate::ids::{is_random_uuid, ulid_text};
use crate::kwin::{hide_plan, script_text, show_plan};
use crate::launch::{
    after_identity, after_runtime, arguments_of, first_handler, greeting, handler_complaint,
    handler_for,
    has_target, identified, launch_context, launch_message, launch_next, launch_step,
    lemma_first_handler_of_both, show_message, targets_of, tray_args, tray_binary, variables_of,
    waits, Build, LaunchAction, LaunchError, LaunchEventModel, LaunchModel, Platform, TrayBinary,
};
use crate::lifecycle::{hide_request_deeds, show_request_deeds};
use crate::link::{percent_encoded, scheme_of, url_parsed};
use crate::options::{is_flag, options_of, Flags, OptionsModel};
use crate::process::{is_tray_of, law_every_tray_is_recognised};
use crate::runtime::blake3_digest;
use crate::storage::{ConfigModel, HandlerModel, SiteModel, StorageModel};
use crate::text::filled;
use crate::tray::{activate_deeds, alive, hide_deeds, show_deeds};

verus! {

/// The step that a launch has come to after some events, and the storage then.
pub open spec fn launch_after(
    command: LaunchModel,
    build: Build,
    state: (LaunchAction, StorageModel),
    fresh: u128,
    events: Seq<LaunchEventModel>,
) -> (LaunchAction, StorageModel)
    decreases events.len(),
{
    if events.len() == 0 {
        state
    } else {
        launch_step(
            command,
            build,
            launch_after(command, build, state, fresh, events.drop_last()),
            fresh,
            events.last(),
        )
    }
}

/// Over a whole launch the storage stays as it was, but for a web app without an identifier for the
/// browser, which has got the random one as soon as the launch has begun.
pub proof fn law_a_launch_changes_the_identifier_at_most(
    command: LaunchModel,
    build: Build,
    storage: StorageModel,
    fresh: u128,
    events: Seq<LaunchEventModel>,
)
    requires
        is_random_uuid(fresh),
    ensures
        ({
            let (action, after) = launch_after(
                command,
                build,
                (LaunchAction::Begin, storage),
                fresh,
                events,
            );
            let site = storage.sites[command.id];
            if action != LaunchAction::Begin && storage.sites.contains_key(command.id)
                && site.config.webapp_id is None {
                &&& after == storage.with_site(command.id, identified(site, fresh))
                &&& after.sites[command.id].config.webapp_id == Some(fresh)
                &&& is_random_uuid(fresh)
            } else {
                after == storage
            }
        }),
    decreases events.len(),
{
    if events.len() > 0 {
        law_a_launch_changes_the_identifier_at_most(
            command,
            build,
            storage,
            fresh,
            events.drop_last(),
        );
    }
}

/// The storage is written directly after the beginning or not at all, and just where the beginning
/// has given the web app an identifier.
pub proof fn law_a_launch_stores_what_it_has_changed(
    command: LaunchModel,
    build: Build,
    state: (LaunchAction, StorageModel),
    fresh: u128,
    event: LaunchEventModel,
)
    requires
        state.0 != LaunchAction::Store,
    ensures
        ({
            let (next, after) = launch_step(command, build, state, fresh, event);
            &&& next == LaunchAction::Store ==> state.0 == LaunchAction::Begin
            &&& next != LaunchAction::Store ==> after == state.1
            &&& next == LaunchAction::Store ==> after == state.1.with_site(
                command.id,
                identified(state.1.sites[command.id], fresh),
            ) && state.1.sites[command.id].config.webapp_id is None
        }),
{
}

/// A web app that is running already is not opened a second time: once its runtime has answered,
/// only the tray is started, whatever happens.
pub proof fn law_a_running_app_opens_no_second_window(
    command: LaunchModel,
    build: Build,
    storage: StorageModel,
    fresh: u128,
    events: Seq<LaunchEventModel>,
)
    requires
        storage.sites.contains_key(command.id),
    ensures
        ({
            let answered = launch_step(
                command,
                build,
                (LaunchAction::Contact, storage),
                fresh,
                LaunchEventModel::Answered(true),
            );
            let later = launch_after(command, build, answered, fresh, events);
            &&& answered.0 == LaunchAction::FocusTray
            &&& later.0 == LaunchAction::FocusTray || later.0 == LaunchAction::Finished
            &&& later.1 == storage
        }),
    decreases events.len(),
{
    if events.len() > 0 {
        law_a_running_app_opens_no_second_window(
            command,
            build,
            storage,
            fresh,
            events.drop_last(),
        );
    }
}

/// On Linux a launch without a particular target asks a running web app to come forward before it
/// looks at the runtime at all.
pub proof fn law_a_plain_launch_asks_first(
    command: LaunchModel,
    build: Build,
    storage: StorageModel,
    fresh: u128,
)
    requires
        build.platform == Platform::Linux,
        !has_target(command),
        storage.sites.contains_key(command.id),
    ensures
        ({
            let begin = (LaunchAction::Begin, storage);
            let first = launch_step(command, build, begin, fresh, LaunchEventModel::Done);
            let second = launch_step(command, build, first, fresh, LaunchEventModel::Done);
            ||| first.0 == LaunchAction::Contact
            ||| first.0 == LaunchAction::Store && second.0 == LaunchAction::Contact
        }),
{
}

/// A launch with a particular target never settles for bringing a running web app forward.
pub proof fn law_a_target_is_always_opened(
    command: LaunchModel,
    build: Build,
    storage: StorageModel,
    fresh: u128,
    events: Seq<LaunchEventModel>,
)
    requires
        has_target(command),
    ensures
        ({
            let begin = (LaunchAction::Begin, storage);
            let later = launch_after(command, build, begin, fresh, events).0;
            later != LaunchAction::Contact && later != LaunchAction::FocusTray
        }),
    decreases events.len(),
{
    if events.len() > 0 {
        law_a_target_is_always_opened(command, build, storage, fresh, events.drop_last());
    }
}

/// On Linux a launch that succeeds has started a tray last.
pub proof fn law_a_launched_app_gets_a_tray(
    command: LaunchModel,
    build: Build,
    storage: StorageModel,
    fresh: u128,
    events: Seq<LaunchEventModel>,
    event: LaunchEventModel,
)
    requires
        build.platform == Platform::Linux,
    ensures
        ({
            let begin = (LaunchAction::Begin, storage);
            let state = launch_after(command, build, begin, fresh, events);
            let next = launch_step(command, build, state, fresh, event);
            state.0 != LaunchAction::Finished && next.0 == LaunchAction::Finished ==> state.0
                == LaunchAction::SpawnTray || state.0 == LaunchAction::FocusTray
        }),
{
    lemma_linux_never_hands_over(command, build, storage, fresh, events);
}

proof fn lemma_linux_never_hands_over(
    command: LaunchModel,
    build: Build,
    storage: StorageModel,
    fresh: u128,
    events: Seq<LaunchEventModel>,
)
    requires
        build.platform == Platform::Linux,
    ensures
        launch_after(command, build, (LaunchAction::Begin, storage), fresh, events).0
            != LaunchAction::HandOver,
    decreases events.len(),
{
    if events.len() > 0 {
        lemma_linux_never_hands_over(command, build, storage, fresh, events.drop_last());
    }
}

/// The browser is started only after the registry and the preferences have been written, in this
/// order, and with URLs that could be resolved.
pub proof fn law_the_browser_starts_prepared(
    command: LaunchModel,
    build: Build,
    storage: StorageModel,
    action: LaunchAction,
    event: LaunchEventModel,
)
    requires
        launch_next(command, build, storage, action, event) != action,
    ensures
        launch_next(command, build, storage, action, event) == LaunchAction::Start ==> action
            == LaunchAction::WritePreferences,
        launch_next(command, build, storage, action, event) == LaunchAction::WritePreferences
            ==> action == LaunchAction::SyncRegistry,
        launch_next(command, build, storage, action, event) == LaunchAction::SyncRegistry
            ==> action == LaunchAction::PatchProfile && targets_of(
            command,
            storage.sites[command.id],
        ) is Ok,
{
}

/// A launch that has come to nothing stays so, and so does one that is done.
pub proof fn law_an_end_is_an_end(
    command: LaunchModel,
    build: Build,
    storage: StorageModel,
    action: LaunchAction,
    event: LaunchEventModel,
)
    requires
        action == LaunchAction::Finished || action is Failed,
    ensures
        launch_next(command, build, storage, action, event) == action,
{
}

/// A web app is given an identifier for the browser once: a later launch keeps it and writes
/// nothing.
pub proof fn law_the_identifier_is_given_once(
    command: LaunchModel,
    build: Build,
    storage: StorageModel,
    fresh: u128,
)
    requires
        storage.sites.contains_key(command.id),
    ensures
        ({
            let later = storage.with_site(
                command.id,
                identified(storage.sites[command.id], fresh),
            );
            &&& later.sites[command.id].config.webapp_id == Some(fresh)
            &&& launch_next(command, build, later, LaunchAction::Begin, LaunchEventModel::Done)
                == after_identity(command, build)
            &&& after_identity(command, build) != LaunchAction::Store
        }),
{
}

/// A runtime that holds the same bytes as the system's browser is not linked anew.
pub proof fn law_the_same_browser_is_not_linked_anew(
    command: LaunchModel,
    build: Build,
    storage: StorageModel,
    browser: Seq<u8>,
)
    requires
        storage.sites.contains_key(command.id),
    ensures
        launch_next(
            command,
            build,
            storage,
            LaunchAction::Compare,
            LaunchEventModel::Compared(browser, browser),
        ) == after_runtime(build),
{
}

/// A protocol URL is opened only where its scheme is enabled for the web app.
pub proof fn law_only_enabled_schemes_are_opened(
    command: LaunchModel,
    site: SiteModel,
    protocol: Seq<char>,
)
    requires
        command.protocol == Some(Some(protocol)),
        targets_of(command, site) is Ok,
    ensures
        site.config.enabled_protocol_handlers.contains(scheme_of(protocol)),
        targets_of(command, site)->Ok_0.len() == 1,
{
}

/// A handler of the user's own is taken before one of the website.
pub proof fn law_own_handlers_come_first(site: SiteModel, scheme: Seq<char>)
    requires
        first_handler(site.config.custom_protocol_handlers, scheme) is Some,
    ensures
        first_handler(site.config.custom_protocol_handlers + site.handlers, scheme)
            == first_handler(site.config.custom_protocol_handlers, scheme),
{
    lemma_first_handler_of_both(site.config.custom_protocol_handlers, site.handlers, scheme);
}

/// The tray understands the arguments that the launcher gives it: it is the tray of the same web
/// app, under the same name and with the icon installed for it, for windows of the class given, and
/// with the command line that starts the web app.
pub proof fn law_the_tray_reads_what_the_launcher_passes(
    id: u128,
    name: Seq<char>,
    wmclass: Seq<char>,
    command: Seq<char>,
)
    ensures
        Flags::unset().after(tray_args(id, name, wmclass, command)) == (Flags {
            id: ulid_text(id),
            name,
            icon: "FFPWA-"@ + ulid_text(id),
            wmclass,
            command,
        }),
{
    let args = tray_args(id, name, wmclass, command);
    reveal_strlit("--id");
    reveal_strlit("--name");
    reveal_strlit("--icon");
    reveal_strlit("--wmclass");
    reveal_strlit("--exec");
    assert("--name"@.len() != "--id"@.len());
    assert("--icon"@.len() != "--id"@.len());
    assert("--exec"@.len() != "--id"@.len());
    assert("--wmclass"@.len() != "--id"@.len());
    assert("--wmclass"@.len() != "--name"@.len());
    assert("--wmclass"@.len() != "--icon"@.len());
    assert("--icon"@[2] != "--name"@[2]);
    assert("--exec"@[2] != "--name"@[2]);
    assert("--exec"@[2] != "--icon"@[2]);
    assert("--wmclass"@.len() != "--exec"@.len());
    let one = Flags::unset().with(args[0], args[1]);
    let two = one.with(args[2], args[3]);
    let three = two.with(args[4], args[5]);
    let four = three.with(args[6], args[7]);
    let five = four.with(args[8], args[9]);
    let rest = args.skip(2);
    let rest2 = rest.skip(2);
    let rest3 = rest2.skip(2);
    let rest4 = rest3.skip(2);
    assert(rest[0] == args[2] && rest[1] == args[3]);
    assert(rest2[0] == args[4] && rest2[1] == args[5]);
    assert(rest3[0] == args[6] && rest3[1] == args[7]);
    assert(rest4[0] == args[8] && rest4[1] == args[9]);
    assert(rest4.skip(2) =~= seq![]);
    assert(is_flag(args[0]) && is_flag(args[2]) && is_flag(args[4]) && is_flag(args[6]) && is_flag(
        args[8],
    ));
    assert(five.after(rest4.skip(2)) == five);
    assert(four.after(rest4) == five);
    assert(three.after(rest3) == five);
    assert(two.after(rest2) == five);
    assert(one.after(rest) == five);
}

/// The options of a tray that the launcher has started.
pub open spec fn launched_options(
    id: u128,
    name: Seq<char>,
    wmclass: Seq<char>,
    command: Seq<char>,
    rt: Seq<char>,
) -> OptionsModel {
    options_of(Flags::unset().after(tray_args(id, name, wmclass, command)), rt)
}

/// A tray that the launcher has started hides and shows the window of its web app, on clicks as on
/// requests, and starts a web app that is not running with the command line given.
pub proof fn law_a_launched_tray_moves_the_window(
    id: u128,
    name: Seq<char>,
    wmclass: Seq<char>,
    command: Seq<char>,
    rt: Seq<char>,
    running: Option<Seq<char>>,
    present: Seq<Seq<char>>,
)
    requires
        wmclass.len() > 0,
    ensures
        ({
            let opts = launched_options(id, name, wmclass, command, rt);
            let hide = Deed::Script(script_text(wmclass, hide_plan()));
            let show = Deed::Script(script_text(wmclass, show_plan()));
            let marked = present.contains(opts.hidden_file);
            let click = activate_deeds(opts, running, present);
            &&& alive(running, present) && !marked ==> click.contains(hide)
            &&& alive(running, present) && marked ==> click.contains(show)
            &&& !alive(running, present) ==> click.contains(
                Deed::Start(seq!["sh"@, "-c"@, command]),
            )
            &&& present.contains(opts.hide_file) && !marked ==> hide_request_deeds(
                opts,
                present,
            ).contains(hide)
            &&& present.contains(opts.show_file) ==> show_request_deeds(opts, present).contains(
                show,
            )
        }),
{
    let opts = launched_options(id, name, wmclass, command, rt);
    let hide = Deed::Script(script_text(wmclass, hide_plan()));
    let show = Deed::Script(script_text(wmclass, show_plan()));
    law_the_tray_reads_what_the_launcher_passes(id, name, wmclass, command);
    assert(hide_deeds(opts)[0] == hide);
    assert(show_deeds(opts)[0] == show);
    let click = activate_deeds(opts, running, present);
    assert(click[1] == hide || click[1] == show || click[1] == Deed::Start(
        seq!["sh"@, "-c"@, command],
    ));
    if present.contains(opts.hide_file) && !present.contains(opts.hidden_file) {
        assert(hide_request_deeds(opts, present)[2] == hide);
    }
    if present.contains(opts.show_file) {
        assert(show_request_deeds(opts, present)[2] == show);
    }
}

/// A tray that the launcher has started is known as the tray of its web app by its command line,
/// whatever its program is called.
pub proof fn law_a_launched_tray_is_recognised(
    program: Seq<char>,
    id: u128,
    name: Seq<char>,
    wmclass: Seq<char>,
    command: Seq<char>,
)
    ensures
        is_tray_of(seq![program] + tray_args(id, name, wmclass, command), ulid_text(id)),
{
    law_the_tray_reads_what_the_launcher_passes(id, name, wmclass, command);
    law_every_tray_is_recognised(program, tray_args(id, name, wmclass, command), ""@);
}

/// A handler that none for the same scheme precedes is the first for it.
proof fn lemma_first_handler_at(handlers: Seq<HandlerModel>, scheme: Seq<char>, i: int)
    requires
        0 <= i < handlers.len(),
        handlers[i].protocol == scheme,
        forall|j: int| 0 <= j < i ==> (#[trigger] handlers[j]).protocol != scheme,
    ensures
        first_handler(handlers, scheme) == Some(handlers[i]),
    decreases i,
{
    if i > 0 {
        let rest = handlers.skip(1);
        assert(handlers[0].protocol != scheme);
        assert forall|j: int| 0 <= j < i - 1 implies (#[trigger] rest[j]).protocol != scheme by {
            assert(rest[j] == handlers[j + 1]);
        }
        lemma_first_handler_at(rest, scheme, i - 1);
    }
}

proof fn lemma_first_handler_nowhere(handlers: Seq<HandlerModel>, scheme: Seq<char>)
    requires
        forall|j: int| 0 <= j < handlers.len() ==> (#[trigger] handlers[j]).protocol != scheme,
    ensures
        first_handler(handlers, scheme) is None,
    decreases handlers.len(),
{
    if handlers.len() > 0 {
        let rest = handlers.skip(1);
        assert forall|j: int| 0 <= j < rest.len() implies (#[trigger] rest[j]).protocol
            != scheme by {
            assert(rest[j] == handlers[j + 1]);
        }
        lemma_first_handler_nowhere(rest, scheme);
    }
}

/// A protocol URL is refused as not enabled just where its scheme stands nowhere among the enabled
/// ones.
pub proof fn law_enabled_schemes_are_not_refused(site: SiteModel, protocol: Seq<char>, i: int)
    ensures
        0 <= i < site.config.enabled_protocol_handlers.len()
            && site.config.enabled_protocol_handlers[i] == scheme_of(protocol) ==> handler_for(
            site,
            protocol,
        ) != Err::<Seq<char>, LaunchError>(LaunchError::SchemeNotEnabled),
        (forall|j: int|
            0 <= j < site.config.enabled_protocol_handlers.len()
                ==> #[trigger] site.config.enabled_protocol_handlers[j] != scheme_of(protocol))
            ==> handler_for(site, protocol) == Err::<Seq<char>, LaunchError>(
            LaunchError::SchemeNotEnabled,
        ),
{
}

/// Where the scheme is enabled, a launch opens just one URL: what the URL parser makes of the first
/// template for the scheme, the user's own before the website's, with the encoded protocol URL in
/// its placeholder. A template that is missing, or that the parser refuses, ends the launch, and
/// what the parser says against it is known.
pub proof fn law_the_first_handler_is_opened(
    command: LaunchModel,
    site: SiteModel,
    protocol: Seq<char>,
    handlers: Seq<HandlerModel>,
    enabled: int,
    i: int,
)
    requires
        command.protocol == Some(Some(protocol)),
        0 <= enabled < site.config.enabled_protocol_handlers.len(),
        site.config.enabled_protocol_handlers[enabled] == scheme_of(protocol),
        handlers == site.config.custom_protocol_handlers + site.handlers,
        0 <= i < handlers.len(),
        handlers[i].protocol == scheme_of(protocol),
        forall|j: int| 0 <= j < i ==> (#[trigger] handlers[j]).protocol != scheme_of(protocol),
    ensures
        match handlers[i].url {
            Some(template) => {
                let text = filled(template, percent_encoded(vstd::utf8::encode_utf8(protocol)));
                &&& handler_for(site, protocol) == Ok::<Seq<char>, LaunchError>(text)
                &&& url_parsed(text) matches Ok(url) ==> targets_of(command, site) == Ok::<
                    Seq<Seq<char>>,
                    LaunchError,
                >(seq![url]) && handler_complaint(command, site) is None
                &&& url_parsed(text) matches Err(message) ==> targets_of(command, site) == Err::<
                    Seq<Seq<char>>,
                    LaunchError,
                >(LaunchError::HandlerNotConverted) && handler_complaint(command, site) == Some(
                    message,
                )
            },
            None => {
                &&& handler_for(site, protocol) == Err::<Seq<char>, LaunchError>(
                    LaunchError::HandlerNotConverted,
                )
                &&& targets_of(command, site) == Err::<Seq<Seq<char>>, LaunchError>(
                    LaunchError::HandlerNotConverted,
                )
                &&& handler_complaint(command, site) is None
            },
        },
{
    lemma_first_handler_at(handlers, scheme_of(protocol), i);
}

/// An enabled scheme for which neither the user nor the website has a handler is not found.
pub proof fn law_a_scheme_without_a_handler_is_not_found(
    command: LaunchModel,
    site: SiteModel,
    protocol: Seq<char>,
    enabled: int,
)
    requires
        command.protocol == Some(Some(protocol)),
        0 <= enabled < site.config.enabled_protocol_handlers.len(),
        site.config.enabled_protocol_handlers[enabled] == scheme_of(protocol),
        forall|j: int|
            0 <= j < site.config.custom_protocol_handlers.len() ==> (
            #[trigger] site.config.custom_protocol_handlers[j]).protocol != scheme_of(protocol),
        forall|j: int|
            0 <= j < site.handlers.len() ==> (#[trigger] site.handlers[j]).protocol != scheme_of(
                protocol,
            ),
    ensures
        handler_for(site, protocol) == Err::<Seq<char>, LaunchError>(LaunchError::SchemeNotFound),
        targets_of(command, site) == Err::<Seq<Seq<char>>, LaunchError>(
            LaunchError::SchemeNotFound,
        ),
        handler_complaint(command, site) is None,
{
    let handlers = site.config.custom_protocol_handlers + site.handlers;
    assert forall|j: int| 0 <= j < handlers.len() implies (#[trigger] handlers[j]).protocol
        != scheme_of(protocol) by {
        if j < site.config.custom_protocol_handlers.len() {
            assert(handlers[j] == site.config.custom_protocol_handlers[j]);
        } else {
            assert(handlers[j] == site.handlers[j - site.config.custom_protocol_handlers.len()]);
        }
    }
    lemma_first_handler_nowhere(handlers, scheme_of(protocol));
}

/// Without a protocol URL the URLs of the command are opened, as they are and in their order; and a
/// launch has a target just where there is a URL of either kind.
pub proof fn law_urls_are_opened_as_given(command: LaunchModel, site: SiteModel)
    ensures
        command.protocol is None || command.protocol == Some(None::<Seq<char>>) ==> targets_of(
            command,
            site,
        ) == Ok::<Seq<Seq<char>>, LaunchError>(command.url) && handler_complaint(command, site)
            is None && (has_target(command) <==> command.url.len() > 0),
        command.protocol is Some && command.protocol->0 is Some ==> has_target(command),
{
}

/// The browser gets the arguments of the command where it gives any, and those kept otherwise; the
/// variables kept, each with its value; and the request to start hidden just where the command is to
/// start hidden.
pub proof fn law_what_the_browser_gets(command: LaunchModel, storage: StorageModel)
    ensures
        command.arguments.len() > 0 ==> arguments_of(command, storage) == command.arguments,
        command.arguments.len() == 0 ==> arguments_of(command, storage) == storage.arguments,
        !command.hidden ==> variables_of(command, storage) == storage.variables,
        command.hidden ==> variables_of(command, storage).contains_key("FFWEBAPPS_START_HIDDEN"@)
            && variables_of(command, storage)["FFWEBAPPS_START_HIDDEN"@] == "1"@,
        forall|name: Seq<char>|
            name != "FFWEBAPPS_START_HIDDEN"@ ==> (#[trigger] variables_of(
                command,
                storage,
            ).contains_key(name) <==> storage.variables.contains_key(name)) && variables_of(
                command,
                storage,
            )[name] == storage.variables[name],
{
}

/// The launcher waits for the browser on macOS only.
pub proof fn law_only_macos_waits(build: Build)
    ensures
        waits(build) <==> build.platform == Platform::MacOs,
{
}

/// The tray beside the program is started just where it is known to exist.
pub proof fn law_the_tray_beside_the_program_comes_first()
    ensures
        tray_binary(Some(true)) == TrayBinary::Sibling,
        tray_binary(Some(false)) == TrayBinary::Installed,
        tray_binary(None) == TrayBinary::Installed,
{
}

/// A message for the runtime says who sends it, and asks for the window just where it is to be shown.
pub proof fn law_the_launcher_asks_for_the_window()
    ensures
        show_message(false) == "hello v1 launcher\n"@,
        show_message(true) == show_message(false) + "show\n"@,
{
    reveal_strlit("hello v1 launcher\n");
    reveal_strlit("show\n");
    reveal_strlit("hello v1 launcher\nshow\n");
    assert(show_message(true) =~= show_message(false) + "show\n"@);
}

/// A launch asks a running web app for its window just where it is not to be hidden.
pub proof fn law_a_hidden_launch_leaves_the_window(command: LaunchModel)
    ensures
        command.hidden ==> greeting(command) == "hello v1 launcher\n"@,
        !command.hidden ==> greeting(command) == "hello v1 launcher\n"@ + "show\n"@,
{
    law_the_launcher_asks_for_the_window();
}

/// The identifier for the browser is all that identifying changes of a web app.
pub proof fn law_identifying_changes_the_identifier_only(site: SiteModel, fresh: u128)
    ensures
        ({
            let after = identified(site, fresh);
            &&& after.config.webapp_id == Some(fresh)
            &&& (ConfigModel { webapp_id: site.config.webapp_id, ..after.config }) == site.config
            &&& (after.ulid, after.profile, after.handlers) == (
                site.ulid,
                site.profile,
                site.handlers,
            )
        }),
{
}

/// A step of a launch leads where the launch leads, and changes the storage just where the beginning
/// gives a web app without an identifier for the browser one; then it changes nothing else.
pub proof fn law_what_a_step_of_a_launch_changes(
    command: LaunchModel,
    build: Build,
    storage: StorageModel,
    action: LaunchAction,
    fresh: u128,
    event: LaunchEventModel,
)
    ensures
        ({
            let (next, after) = launch_step(command, build, (action, storage), fresh, event);
            let site = storage.sites[command.id];
            let names = action == LaunchAction::Begin && event == LaunchEventModel::Done
                && storage.sites.contains_key(command.id) && site.config.webapp_id is None;
            &&& next == launch_next(command, build, storage, action, event)
            &&& !names ==> after == storage
            &&& names ==> {
                &&& after.sites.dom() == storage.sites.dom()
                &&& after.sites.remove(command.id) == storage.sites.remove(command.id)
                &&& after.sites[command.id].config.webapp_id == Some(fresh)
                &&& (ConfigModel { webapp_id: None, ..after.sites[command.id].config })
                    == site.config
                &&& after.sites[command.id].ulid == site.ulid
                &&& after.sites[command.id].profile == site.profile
                &&& after.sites[command.id].handlers == site.handlers
                &&& (after.profiles, after.arguments, after.variables) == (
                    storage.profiles,
                    storage.arguments,
                    storage.variables,
                )
                &&& after.use_linked_runtime == storage.use_linked_runtime
            }
        }),
{
    let after = launch_step(command, build, (action, storage), fresh, event).1;
    if storage.sites.contains_key(command.id) {
        assert(after.sites.dom() =~= storage.sites.dom());
        assert(after.sites.remove(command.id) =~= storage.sites.remove(command.id));
    }
}

/// A launch of a web app that is not there comes to nothing at whatever step.
pub proof fn law_what_is_not_there_is_not_launched(
    command: LaunchModel,
    build: Build,
    storage: StorageModel,
    action: LaunchAction,
    event: LaunchEventModel,
)
    requires
        !storage.sites.contains_key(command.id),
        action != LaunchAction::Finished,
        !(action is Failed),
    ensures
        launch_next(command, build, storage, action, event) == LaunchAction::Failed(
            LaunchError::NoSuchApp,
        ),
{
}

/// A launch begins by storing a web app that had no identifier. Then, on Linux, it goes to the
/// runtime where there is a target, and asks a running web app first where there is none; on macOS
/// the system launches unless the launch is to be direct; elsewhere it goes to the runtime.
pub proof fn law_how_a_launch_begins(
    command: LaunchModel,
    build: Build,
    storage: StorageModel,
)
    requires
        storage.sites.contains_key(command.id),
    ensures
        ({
            let site = storage.sites[command.id];
            let begun = launch_next(
                command,
                build,
                storage,
                LaunchAction::Begin,
                LaunchEventModel::Done,
            );
            let stored = launch_next(
                command,
                build,
                storage,
                LaunchAction::Store,
                LaunchEventModel::Done,
            );
            let opens = command.url.len() > 0 || (command.protocol is Some && command.protocol->0
                is Some);
            &&& site.config.webapp_id is None ==> begun == LaunchAction::Store
            &&& site.config.webapp_id is Some ==> begun == stored
            &&& stored == LaunchAction::Contact <==> build.platform == Platform::Linux && !opens
            &&& stored == LaunchAction::HandOver <==> build.platform == Platform::MacOs
                && !command.direct_launch
            &&& stored == LaunchAction::Contact || stored == LaunchAction::HandOver || stored
                == LaunchAction::OpenRuntime
        }),
{
}

/// Only a web app that has not answered is started; one that has gets a tray, and so does one that
/// was started on Linux; and that, like a launch by the system, is the end.
pub proof fn law_how_a_launch_ends(
    command: LaunchModel,
    build: Build,
    storage: StorageModel,
    answered: bool,
)
    requires
        storage.sites.contains_key(command.id),
    ensures
        launch_next(
            command,
            build,
            storage,
            LaunchAction::Contact,
            LaunchEventModel::Answered(answered),
        ) == (if answered {
            LaunchAction::FocusTray
        } else {
            LaunchAction::OpenRuntime
        }),
        launch_next(command, build, storage, LaunchAction::Start, LaunchEventModel::Done) == (
        if build.platform == Platform::Linux {
            LaunchAction::SpawnTray
        } else {
            LaunchAction::Finished
        }),
        launch_next(command, build, storage, LaunchAction::FocusTray, LaunchEventModel::Done)
            == LaunchAction::Finished,
        launch_next(command, build, storage, LaunchAction::SpawnTray, LaunchEventModel::Done)
            == LaunchAction::Finished,
        launch_next(command, build, storage, LaunchAction::HandOver, LaunchEventModel::Done)
            == LaunchAction::Finished,
{
}

/// A launch goes on only in a profile that is there and with a runtime that is installed. The
/// browsers are compared just where the linked one can be linked anew: on Linux, where it is in use
/// and may be changed. Otherwise the runtime is patched, unless it may not be changed.
pub proof fn law_what_a_launch_makes_of_the_runtime(
    command: LaunchModel,
    build: Build,
    storage: StorageModel,
    installed: bool,
)
    requires
        storage.sites.contains_key(command.id),
    ensures
        ({
            let next = launch_next(
                command,
                build,
                storage,
                LaunchAction::OpenRuntime,
                LaunchEventModel::Opened(installed),
            );
            let housed = storage.profiles.contains_key(storage.sites[command.id].profile);
            let linked = build.platform == Platform::Linux && storage.use_linked_runtime
                && !build.immutable_runtime;
            &&& !housed ==> next == LaunchAction::Failed(LaunchError::NoProfile)
            &&& housed && !installed ==> next == LaunchAction::Failed(
                LaunchError::RuntimeNotInstalled,
            )
            &&& housed && installed && linked ==> next == LaunchAction::Compare
            &&& housed && installed && !linked && build.immutable_runtime ==> next
                == LaunchAction::PatchProfile
            &&& housed && installed && !linked && !build.immutable_runtime ==> next
                == LaunchAction::PatchRuntime
        }),
{
}

/// A browser that differs in its digest from the system's is linked anew, and only such a one; after
/// either the runtime is patched, unless it may not be changed.
pub proof fn law_a_different_browser_is_linked_anew(
    command: LaunchModel,
    build: Build,
    storage: StorageModel,
    system: Seq<u8>,
    linked: Seq<u8>,
)
    requires
        storage.sites.contains_key(command.id),
    ensures
        ({
            let compared = launch_next(
                command,
                build,
                storage,
                LaunchAction::Compare,
                LaunchEventModel::Compared(system, linked),
            );
            let relinked = launch_next(
                command,
                build,
                storage,
                LaunchAction::Relink,
                LaunchEventModel::Done,
            );
            &&& blake3_digest(system) != blake3_digest(linked) <==> compared
                == LaunchAction::Relink
            &&& blake3_digest(system) == blake3_digest(linked) ==> compared == relinked
            &&& build.immutable_runtime ==> relinked == LaunchAction::PatchProfile
            &&& !build.immutable_runtime ==> relinked == LaunchAction::PatchRuntime
        }),
{
}

/// Every launch that has a runtime patches it before the profile, then enters the web app in the
/// registry where its targets are known and comes to nothing by their error where they are not, then
/// writes the preferences, then starts the browser.
pub proof fn law_how_a_launch_is_prepared(
    command: LaunchModel,
    build: Build,
    storage: StorageModel,
)
    requires
        storage.sites.contains_key(command.id),
    ensures
        launch_next(command, build, storage, LaunchAction::PatchRuntime, LaunchEventModel::Done)
            == LaunchAction::PatchProfile,
        match targets_of(command, storage.sites[command.id]) {
            Ok(_) => launch_next(
                command,
                build,
                storage,
                LaunchAction::PatchProfile,
                LaunchEventModel::Done,
            ) == LaunchAction::SyncRegistry,
            Err(error) => launch_next(
                command,
                build,
                storage,
                LaunchAction::PatchProfile,
                LaunchEventModel::Done,
            ) == LaunchAction::Failed(error),
        },
        launch_next(command, build, storage, LaunchAction::SyncRegistry, LaunchEventModel::Done)
            == LaunchAction::WritePreferences,
        launch_next(
            command,
            build,
            storage,
            LaunchAction::WritePreferences,
            LaunchEventModel::Done,
        ) == LaunchAction::Start,
{
}

/// An event that does not answer a step of a launch leaves it as it is.
pub proof fn law_a_launch_waits_for_its_answer(
    command: LaunchModel,
    build: Build,
    storage: StorageModel,
    action: LaunchAction,
    event: LaunchEventModel,
)
    requires
        storage.sites.contains_key(command.id),
        match event {
            LaunchEventModel::Done => action == LaunchAction::Contact || action
                == LaunchAction::OpenRuntime || action == LaunchAction::Compare,
            LaunchEventModel::Answered(_) => action != LaunchAction::Contact,
            LaunchEventModel::Opened(_) => action != LaunchAction::OpenRuntime,
            LaunchEventModel::Compared(..) => action != LaunchAction::Compare,
        },
    ensures
        launch_next(command, build, storage, action, event) == action,
{
}

/// What is said of a scheme names that scheme, and steps that write for the browser are introduced
/// when they fail, and no others.
pub proof fn law_what_is_said_of_a_launch(
    command: LaunchModel,
    protocol: Seq<char>,
    action: LaunchAction,
)
    requires
        command.protocol == Some(Some(protocol)),
    ensures
        launch_message(command, LaunchError::SchemeNotEnabled) == "Scheme "@ + scheme_of(protocol)
            + " not enabled"@,
        launch_message(command, LaunchError::SchemeNotFound) == "Scheme "@ + scheme_of(protocol)
            + " not found"@,
        launch_message(command, LaunchError::NoSuchApp) == "Web app does not exist"@,
        launch_message(command, LaunchError::NoProfile) == "Web app without a profile"@,
        launch_message(command, LaunchError::RuntimeNotInstalled) == "Runtime not installed"@,
        launch_message(command, LaunchError::HandlerNotConverted)
            == "Failed to convert protocol handler"@,
        launch_context(action) is Some <==> action == LaunchAction::SyncRegistry || action
            == LaunchAction::WritePreferences,
        launch_context(LaunchAction::SyncRegistry) == Some(
            "Failed to update the Web Apps registry"@,
        ),
        launch_context(LaunchAction::WritePreferences) == Some(
            "Failed to write web app preferences"@,
        ),
{
}

} // verus!
