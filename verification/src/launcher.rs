//! The launcher window's decisions: which AppImages the list shows for the
//! filter text, which line is selected, which icon is shown, and what each
//! event asks the window to do. The window itself performs the actions and
//! hands the events back.

use vstd::prelude::*;
use crate::config::Config;
use crate::paths::{file_stem, is_plain_path, path_file_stem};
use crate::thumbnails::{is_thumbnail_call, ScriptCall};
use crate::text::{concat2, concat3, lowercase, starts_with, to_lowercase};

verus! {

/// The keys the filter field reacts to.
#[derive(Clone, Copy, Debug, PartialEq, Eq)]
pub enum Key {
    Enter,
    Down,
    Up,
    Escape,
    /// Any other key.
    Other,
}

/// What happens in the window.
#[derive(Clone, Debug, PartialEq, Eq)]
pub enum Event {
    /// The filter text changed; it now reads this.
    Filter(String),
    /// The user picked a line of the list; the list's selected line is now
    /// this one (0 where none is selected).
    Select(usize),
    /// The selected AppImage is to be started.
    OpenFile,
    /// The thumbnails are to be made anew.
    Refresh,
    /// A key was pressed in the filter field.
    KeyInput(Key),
    /// The window is to close.
    Close,
    /// The directories are to be chosen anew.
    ChangeDir,
}

/// What the window is asked to do, in the order given.
#[derive(Clone, Debug, PartialEq, Eq)]
pub enum Action {
    /// Empty the list, add these items, and select this line (0: none).
    ShowList(Vec<String>, usize),
    /// Select this line of the list.
    SelectLine(usize),
    /// Show the icon stored at this path, or the error image where it
    /// cannot be loaded.
    ShowIcon(String),
    /// Queue an `OpenFile` event.
    PostOpenFile,
    /// Start the program at this path and end the launcher.
    Launch(String),
    /// Make the thumbnails of the AppImages and give the filter field focus.
    RefreshThumbnails,
    /// Open the window that chooses the directories.
    Configure,
    /// Hide the window.
    Hide,
}

/// Why an event could not be handled.
#[derive(Clone, Copy, Debug, PartialEq, Eq)]
pub enum LauncherError {
    /// The path formed from the AppImage directory and the selected line has
    /// no file name, so no icon path can be formed from it.
    NoFileName,
    /// An AppImage was to be started while no line is selected.
    NoSelection,
}

/// The launcher's state: all AppImages found, those the list shows, and
/// the selected line of the list (1-based, 0 where none is selected).
pub struct Launcher {
    pub model: Vec<String>,
    pub shown: Vec<String>,
    pub selected: usize,
}

/// The mathematical form of a launcher state.
pub struct LauncherView {
    pub model: Seq<Seq<char>>,
    pub shown: Seq<Seq<char>>,
    pub selected: nat,
}

/// The mathematical form of an event.
pub enum EventView {
    Filter(Seq<char>),
    Select(nat),
    OpenFile,
    Refresh,
    KeyInput(Key),
    Close,
    ChangeDir,
}

/// The mathematical form of an action.
pub enum ActionView {
    ShowList(Seq<Seq<char>>, nat),
    SelectLine(nat),
    ShowIcon(Seq<char>),
    PostOpenFile,
    Launch(Seq<char>),
    RefreshThumbnails,
    Configure,
    Hide,
}

impl View for Launcher {
    type V = LauncherView;

    open spec fn view(&self) -> LauncherView {
        LauncherView {
            model: self.model.deep_view(),
            shown: self.shown.deep_view(),
            selected: self.selected as nat,
        }
    }
}

impl View for Event {
    type V = EventView;

    open spec fn view(&self) -> EventView {
        match self {
            Event::Filter(text) => EventView::Filter(text@),
            Event::Select(line) => EventView::Select(*line as nat),
            Event::OpenFile => EventView::OpenFile,
            Event::Refresh => EventView::Refresh,
            Event::KeyInput(key) => EventView::KeyInput(*key),
            Event::Close => EventView::Close,
            Event::ChangeDir => EventView::ChangeDir,
        }
    }
}

impl View for Action {
    type V = ActionView;

    open spec fn view(&self) -> ActionView {
        match self {
            Action::ShowList(items, line) => ActionView::ShowList(items.deep_view(), *line as nat),
            Action::SelectLine(line) => ActionView::SelectLine(*line as nat),
            Action::ShowIcon(path) => ActionView::ShowIcon(path@),
            Action::PostOpenFile => ActionView::PostOpenFile,
            Action::Launch(path) => ActionView::Launch(path@),
            Action::RefreshThumbnails => ActionView::RefreshThumbnails,
            Action::Configure => ActionView::Configure,
            Action::Hide => ActionView::Hide,
        }
    }
}

/// The mathematical form of a list of actions.
pub open spec fn actions_view(actions: Seq<Action>) -> Seq<ActionView> {
    actions.map_values(|a: Action| a@)
}

/// The mathematical form of a handler's result.
pub open spec fn result_view(r: Result<Vec<Action>, LauncherError>) -> Result<
    Seq<ActionView>,
    LauncherError,
> {
    match r {
        Ok(actions) => Ok(actions_view(actions@)),
        Err(e) => Err(e),
    }
}

/// A state is well formed when its selected line is 0 or a line of the list.
pub open spec fn wf(s: LauncherView) -> bool {
    s.selected <= s.shown.len()
}

/// An event fits a state when a line it reports is 0 or a line of the list.
pub open spec fn event_fits(s: LauncherView, ev: EventView) -> bool {
    ev matches EventView::Select(line) ==> line <= s.shown.len()
}

/// Whether an item passes the filter: the lowercase filter text is a prefix
/// of the lowercase item.
pub open spec fn passes_filter(filter: Seq<char>, item: Seq<char>) -> bool {
    lowercase(filter).is_prefix_of(lowercase(item))
}

/// The items of `model` that pass the filter, in their order.
pub open spec fn spec_shown(model: Seq<Seq<char>>, filter: Seq<char>) -> Seq<Seq<char>> {
    model.filter(|item: Seq<char>| passes_filter(filter, item))
}

/// The text of the selected line, or the empty string where none is selected.
pub open spec fn spec_selected_text(s: LauncherView) -> Seq<char> {
    if 1 <= s.selected <= s.shown.len() {
        s.shown[s.selected - 1]
    } else {
        Seq::empty()
    }
}

/// The icon path of an AppImage: the file stem of its path in the AppImage
/// directory, in the icon directory, with `".png"`.
pub open spec fn spec_icon_path(apps: Seq<char>, icons: Seq<char>, item: Seq<char>) -> Option<
    Seq<char>,
> {
    match path_file_stem(apps + "/"@ + item) {
        Some(stem) => Some(icons + "/"@ + stem + ".png"@),
        None => None,
    }
}

/// `actions` followed by showing the icon of the selected line.
pub open spec fn with_icon(
    actions: Seq<ActionView>,
    apps: Seq<char>,
    icons: Seq<char>,
    s: LauncherView,
) -> Result<Seq<ActionView>, LauncherError> {
    match spec_icon_path(apps, icons, spec_selected_text(s)) {
        Some(path) => Ok(actions.push(ActionView::ShowIcon(path))),
        None => Err(LauncherError::NoFileName),
    }
}

/// The line selected after Down: the next one, where there is one.
pub open spec fn line_down(selected: nat, len: nat) -> nat {
    if selected + 1 <= len {
        selected + 1
    } else {
        selected
    }
}

/// The line selected after Up: the previous one, where there is one.
pub open spec fn line_up(selected: nat) -> nat {
    if selected >= 2 {
        (selected - 1) as nat
    } else {
        selected
    }
}

/// The launcher's reaction to an event: its next state and what the window
/// is to do, or why the event cannot be handled.
pub open spec fn spec_handle(s: LauncherView, apps: Seq<char>, icons: Seq<char>, ev: EventView) -> (
    LauncherView,
    Result<Seq<ActionView>, LauncherError>,
) {
    match ev {
        EventView::Filter(text) => {
            let shown = spec_shown(s.model, text);
            let selected: nat = if shown.len() > 0 {
                1
            } else {
                0
            };
            let next = LauncherView { model: s.model, shown, selected };
            (next, with_icon(seq![ActionView::ShowList(shown, selected)], apps, icons, next))
        },
        EventView::Select(line) => {
            let next = LauncherView { model: s.model, shown: s.shown, selected: line };
            if line != 0 {
                (next, with_icon(Seq::empty(), apps, icons, next))
            } else {
                (next, Ok(Seq::empty()))
            }
        },
        EventView::OpenFile => {
            if 1 <= s.selected <= s.shown.len() {
                (s, Ok(seq![ActionView::Launch(apps + "/"@ + s.shown[s.selected - 1])]))
            } else {
                (s, Err(LauncherError::NoSelection))
            }
        },
        EventView::Refresh => (s, Ok(seq![ActionView::RefreshThumbnails])),
        EventView::KeyInput(key) => match key {
            Key::Enter => (s, Ok(seq![ActionView::PostOpenFile])),
            Key::Down => {
                let line: nat = line_down(s.selected, s.shown.len());
                let next = LauncherView { model: s.model, shown: s.shown, selected: line };
                (next, with_icon(seq![ActionView::SelectLine(line)], apps, icons, next))
            },
            Key::Up => {
                let line: nat = line_up(s.selected);
                let next = LauncherView { model: s.model, shown: s.shown, selected: line };
                (next, with_icon(seq![ActionView::SelectLine(line)], apps, icons, next))
            },
            Key::Escape => (s, Ok(seq![ActionView::Hide])),
            Key::Other => (s, Ok(Seq::empty())),
        },
        EventView::Close => (s, Ok(seq![ActionView::Hide])),
        EventView::ChangeDir => (s, Ok(seq![ActionView::Configure])),
    }
}

/// The items of `model` that pass the filter `filter`, in their order.
pub fn filter_items(model: &Vec<String>, filter: &str) -> (r: Vec<String>)
    ensures
        r.deep_view() == spec_shown(model.deep_view(), filter@),
        filter@.len() == 0 ==> r.deep_view() == model.deep_view(),
{
    let prefix = to_lowercase(filter);
    proof {
        if filter@.len() == 0 {
            lemma_empty_filter_shows_all(model.deep_view(), filter@);
        }
    }
    let mut r: Vec<String> = Vec::new();
    let mut i: usize = 0;
    while i < model.len()
        invariant
            i <= model.len(),
            prefix@ == lowercase(filter@),
            r.deep_view() == spec_shown(model.deep_view().take(i as int), filter@),
        decreases model.len() - i,
    {
        let ghost before = model.deep_view().take(i as int);
        let ghost after = model.deep_view().take(i + 1);
        assert(after.drop_last() =~= before);
        assert(after.last() == model@[i as int]@);
        let lower = to_lowercase(model[i].as_str());
        let keep = starts_with(lower.as_str(), prefix.as_str());
        proof {
            reveal_with_fuel(Seq::filter, 1);
        }
        if keep {
            r.push(model[i].clone());
        }
        assert(r.deep_view() =~= spec_shown(after, filter@));
        i += 1;
    }
    assert(model.deep_view().take(model.len() as int) =~= model.deep_view());
    r
}

/// The icon path for the file stem `stem`: `icons_dir`, `"/"`, the stem and `".png"`.
pub fn icon_path_for(icons_dir: &str, stem: &str) -> (r: String)
    ensures
        r@ == icons_dir@ + "/"@ + stem@ + ".png"@,
{
    let base = concat3(icons_dir, "/", stem);
    concat2(base.as_str(), ".png")
}

/// The icon path of an AppImage of the list, as `spec_icon_path` gives it.
pub fn icon_path(settings: &Config, item: &str) -> (r: Option<String>)
    ensures
        r.deep_view() == spec_icon_path(settings.appimages_path@, settings.icons_dir@, item@),
{
    let joined = concat3(settings.appimages_path.as_str(), "/", item);
    match file_stem(joined.as_str()) {
        Some(stem) => Some(icon_path_for(settings.icons_dir.as_str(), stem.as_str())),
        None => None,
    }
}

/// Whether the filter text lowercases to the empty string, so that it lets
/// every AppImage through.
pub fn filter_is_blank(text: &str) -> (b: bool)
    ensures
        b == (lowercase(text@).len() == 0),
{
    let lower = to_lowercase(text);
    lower.unicode_len() == 0
}

impl Launcher {
    /// A launcher for the AppImages of `model`, with an empty list.
    pub fn new(model: Vec<String>) -> (r: Launcher)
        ensures
            r@.model == model.deep_view(),
            r@.shown == Seq::<Seq<char>>::empty(),
            r@.selected == 0,
            wf(r@),
    {
        let r = Launcher { model, shown: Vec::new(), selected: 0 };
        assert(r@.shown =~= Seq::<Seq<char>>::empty());
        r
    }

    /// The text of the selected line, or the empty string.
    pub fn selected_text(&self) -> (r: String)
        ensures
            r@ == spec_selected_text(self@),
    {
        if 1 <= self.selected && self.selected <= self.shown.len() {
            self.shown[self.selected - 1].clone()
        } else {
            String::new()
        }
    }

    /// `actions` followed by showing the icon of the selected line.
    fn push_icon(&self, settings: &Config, actions: Vec<Action>) -> (r: Result<
        Vec<Action>,
        LauncherError,
    >)
        ensures
            result_view(r) == with_icon(
                actions_view(actions@),
                settings.appimages_path@,
                settings.icons_dir@,
                self@,
            ),
    {
        let text = self.selected_text();
        match icon_path(settings, text.as_str()) {
            Some(path) => {
                let mut actions = actions;
                let ghost before = actions@;
                actions.push(Action::ShowIcon(path));
                assert(actions_view(actions@) =~= actions_view(before).push(
                    ActionView::ShowIcon(path@),
                ));
                Ok(actions)
            },
            None => Err(LauncherError::NoFileName),
        }
    }

    /// Handles one event with the directories of `settings`: the state moves
    /// on as `spec_handle` says, and the result is the actions it gives.
    pub fn handle(&mut self, settings: &Config, ev: Event) -> (r: Result<
        Vec<Action>,
        LauncherError,
    >)
        requires
            wf(old(self)@),
            event_fits(old(self)@, ev@),
        ensures
            (final(self)@, result_view(r)) == spec_handle(
                old(self)@,
                settings.appimages_path@,
                settings.icons_dir@,
                ev@,
            ),
    {
        match ev {
            Event::Filter(text) => {
                let shown = filter_items(&self.model, text.as_str());
                let selected: usize = if shown.len() > 0 {
                    1
                } else {
                    0
                };
                self.shown = shown.clone();
                self.selected = selected;
                let mut actions: Vec<Action> = Vec::new();
                actions.push(Action::ShowList(shown, selected));
                assert(actions_view(actions@) =~= seq![
                    ActionView::ShowList(self@.shown, selected as nat),
                ]);
                self.push_icon(settings, actions)
            },
            Event::Select(line) => {
                self.selected = line;
                if line != 0 {
                    let r = self.push_icon(settings, Vec::new());
                    assert(actions_view(Seq::<Action>::empty()) =~= Seq::<ActionView>::empty());
                    r
                } else {
                    let r: Vec<Action> = Vec::new();
                    assert(actions_view(r@) =~= Seq::<ActionView>::empty());
                    Ok(r)
                }
            },
            Event::OpenFile => {
                if 1 <= self.selected && self.selected <= self.shown.len() {
                    let path = concat3(
                        settings.appimages_path.as_str(),
                        "/",
                        self.shown[self.selected - 1].as_str(),
                    );
                    let mut r: Vec<Action> = Vec::new();
                    r.push(Action::Launch(path));
                    assert(actions_view(r@) =~= seq![ActionView::Launch(path@)]);
                    Ok(r)
                } else {
                    Err(LauncherError::NoSelection)
                }
            },
            Event::Refresh => Ok(Self::one(Action::RefreshThumbnails)),
            Event::KeyInput(key) => match key {
                Key::Enter => Ok(Self::one(Action::PostOpenFile)),
                Key::Down => {
                    if self.selected < self.shown.len() {
                        self.selected = self.selected + 1;
                    }
                    let actions = Self::one(Action::SelectLine(self.selected));
                    self.push_icon(settings, actions)
                },
                Key::Up => {
                    if self.selected >= 2 {
                        self.selected = self.selected - 1;
                    }
                    let actions = Self::one(Action::SelectLine(self.selected));
                    self.push_icon(settings, actions)
                },
                Key::Escape => Ok(Self::one(Action::Hide)),
                Key::Other => {
                    let r: Vec<Action> = Vec::new();
                    assert(actions_view(r@) =~= Seq::<ActionView>::empty());
                    Ok(r)
                },
            },
            Event::Close => Ok(Self::one(Action::Hide)),
            Event::ChangeDir => Ok(Self::one(Action::Configure)),
        }
    }

    fn one(a: Action) -> (r: Vec<Action>)
        ensures
            actions_view(r@) == seq![a@],
    {
        let mut r: Vec<Action> = Vec::new();
        r.push(a);
        assert(actions_view(r@) =~= seq![a@]);
        r
    }
}


/// Every event keeps the selected line at 0 or on a line of the list.
pub proof fn lemma_handle_keeps_selection_in_list(
    s: LauncherView,
    apps: Seq<char>,
    icons: Seq<char>,
    ev: EventView,
)
    requires
        wf(s),
        event_fits(s, ev),
    ensures
        wf(spec_handle(s, apps, icons, ev).0),
{
    if let EventView::Filter(text) = ev {
        let shown = spec_shown(s.model, text);
        assert(shown.len() > 0 ==> 1 <= shown.len());
    }
}

/// No event changes the AppImages found, and only a filter change changes
/// the list that is shown.
pub proof fn lemma_handle_keeps_model(s: LauncherView, apps: Seq<char>, icons: Seq<char>, ev: EventView)
    ensures
        spec_handle(s, apps, icons, ev).0.model == s.model,
        !(ev is Filter) ==> spec_handle(s, apps, icons, ev).0.shown == s.shown,
{
}

/// The list shows exactly the AppImages whose lowercase name starts with
/// the lowercase filter text, in the order they were found: it is the
/// model filtered by that test, so each line passes it and each AppImage
/// that passes it is shown; after a filter change the first line is
/// selected where the list is not empty, and the model is kept.
pub proof fn lemma_filter_shows_matches(
    s: LauncherView,
    apps: Seq<char>,
    icons: Seq<char>,
    text: Seq<char>,
)
    ensures
        ({
            let next = spec_handle(s, apps, icons, EventView::Filter(text)).0;
            &&& next.shown == s.model.filter(
                |item: Seq<char>| lowercase(text).is_prefix_of(lowercase(item)),
            )
            &&& next.shown.len() <= s.model.len()
            &&& forall|i: int|
                0 <= i < next.shown.len() ==> lowercase(text).is_prefix_of(
                    lowercase(#[trigger] next.shown[i]),
                )
            &&& forall|i: int|
                0 <= i < s.model.len() && lowercase(text).is_prefix_of(
                    lowercase(#[trigger] s.model[i]),
                ) ==> next.shown.contains(s.model[i])
            &&& next.selected == (if next.shown.len() > 0 {
                1nat
            } else {
                0nat
            })
            &&& next.model == s.model
        }),
{
    let pred = |item: Seq<char>| lowercase(text).is_prefix_of(lowercase(item));
    let own = |item: Seq<char>| passes_filter(text, item);
    assert(own =~= pred);
    let shown = spec_shown(s.model, text);
    assert(shown == s.model.filter(pred));
    s.model.lemma_filter_len(pred);
    assert forall|i: int| 0 <= i < shown.len() implies lowercase(text).is_prefix_of(
        lowercase(#[trigger] shown[i]),
    ) by {
        s.model.lemma_filter_pred(pred, i);
    }
    assert forall|i: int|
        0 <= i < s.model.len() && lowercase(text).is_prefix_of(
            lowercase(#[trigger] s.model[i]),
        ) implies shown.contains(s.model[i]) by {
        s.model.lemma_filter_contains(pred, i);
    }
}

/// A filter text whose lowercase form is empty lets every AppImage through.
pub proof fn lemma_empty_filter_shows_all(model: Seq<Seq<char>>, text: Seq<char>)
    requires
        lowercase(text).len() == 0,
    ensures
        spec_shown(model, text) == model,
    decreases model.len(),
{
    reveal_with_fuel(Seq::filter, 1);
    if model.len() > 0 {
        lemma_empty_filter_shows_all(model.drop_last(), text);
        assert(lowercase(text) =~= lowercase(model.last()).subrange(0, 0));
        assert(model.drop_last().push(model.last()) =~= model);
    } else {
        assert(spec_shown(model, text) =~= model);
    }
}

/// Down then Up returns to the line selected before, where that line has a
/// successor; Up then Down does, where it has a predecessor. Neither key
/// changes the list.
pub proof fn lemma_down_up_return(s: LauncherView, apps: Seq<char>, icons: Seq<char>)
    requires
        wf(s),
    ensures
        1 <= s.selected < s.shown.len() ==> spec_handle(
            spec_handle(s, apps, icons, EventView::KeyInput(Key::Down)).0,
            apps,
            icons,
            EventView::KeyInput(Key::Up),
        ).0 == s,
        2 <= s.selected <= s.shown.len() ==> spec_handle(
            spec_handle(s, apps, icons, EventView::KeyInput(Key::Up)).0,
            apps,
            icons,
            EventView::KeyInput(Key::Down),
        ).0 == s,
{
}

/// Starting an AppImage launches the selected line's file in the AppImage
/// directory and changes nothing; with no line selected it is refused.
pub proof fn lemma_open_launches_selected(s: LauncherView, apps: Seq<char>, icons: Seq<char>)
    requires
        wf(s),
    ensures
        spec_handle(s, apps, icons, EventView::OpenFile).0 == s,
        s.selected == 0 ==> spec_handle(s, apps, icons, EventView::OpenFile).1 == Err::<
            Seq<ActionView>,
            LauncherError,
        >(LauncherError::NoSelection),
        s.selected > 0 ==> spec_handle(s, apps, icons, EventView::OpenFile).1 == Ok::<
            Seq<ActionView>,
            LauncherError,
        >(seq![ActionView::Launch(apps + "/"@ + spec_selected_text(s))]),
{
}


/// The icon the launcher shows for a listed AppImage is the icon its
/// thumbnail job writes: for a file name without `'/'` whose path in the
/// AppImage directory is plain (see `is_plain_path`), the icon path is the
/// job's second argument.
pub proof fn lemma_icon_is_thumbnail(
    apps: Seq<char>,
    icons: Seq<char>,
    name: Seq<char>,
    call: ScriptCall,
)
    requires
        !name.contains('/'),
        is_plain_path(apps + "/"@ + name),
        is_thumbnail_call(call, apps, icons, name),
    ensures
        spec_icon_path(apps, icons, name) == Some(call.args.deep_view()[1]),
{
    reveal_strlit("/");
    assert("/"@ =~= seq!['/']);
    let joined = apps + "/"@ + name;
    crate::paths::lemma_joined_final_segment(apps, name);
    assert(joined =~= apps + seq!['/'] + name);
    assert(crate::paths::final_segment(joined) == name);
    assert(!name.contains('\\')) by {
        if name.contains('\\') {
            let i = choose|i: int| 0 <= i < name.len() && name[i] == '\\';
            assert(joined[apps.len() + 1 + i] == '\\');
        }
    }
    assert(!name.contains(':')) by {
        if name.contains(':') {
            let i = choose|i: int| 0 <= i < name.len() && name[i] == ':';
            assert(joined[apps.len() + 1 + i] == ':');
        }
    }
    assert(is_plain_path(name));
}


/// The text of line `line` of `shown` (1-based), or the empty string for
/// line 0.
pub open spec fn line_text(shown: Seq<Seq<char>>, line: nat) -> Seq<char> {
    if 1 <= line <= shown.len() {
        shown[line - 1]
    } else {
        Seq::empty()
    }
}

/// Clicking line `line` of the list selects that line and shows the icon
/// named after the file stem of its AppImage (refused where that path has
/// no stem); starting an AppImage afterwards launches the clicked line's
/// file in the AppImage directory.
pub proof fn lemma_click_then_open(
    s: LauncherView,
    apps: Seq<char>,
    icons: Seq<char>,
    line: nat,
)
    requires
        wf(s),
        1 <= line <= s.shown.len(),
    ensures
        ({
            let h = spec_handle(s, apps, icons, EventView::Select(line));
            let item = s.shown[line - 1];
            &&& h.0.selected == line
            &&& h.0.shown == s.shown
            &&& h.0.model == s.model
            &&& (path_file_stem(apps + "/"@ + item) matches Some(stem) ==> h.1 == Ok::<
                Seq<ActionView>,
                LauncherError,
            >(seq![ActionView::ShowIcon(icons + "/"@ + stem + ".png"@)]))
            &&& (path_file_stem(apps + "/"@ + item) is None ==> h.1 == Err::<
                Seq<ActionView>,
                LauncherError,
            >(LauncherError::NoFileName))
            &&& spec_handle(h.0, apps, icons, EventView::OpenFile).1 == Ok::<
                Seq<ActionView>,
                LauncherError,
            >(seq![ActionView::Launch(apps + "/"@ + item)])
        }),
{
    let h = spec_handle(s, apps, icons, EventView::Select(line));
    assert(spec_selected_text(h.0) == s.shown[line - 1]);
    assert(Seq::<ActionView>::empty().push(ActionView::ShowIcon(icons + "/"@
        + path_file_stem(apps + "/"@ + s.shown[line - 1])->0 + ".png"@)) =~= seq![
        ActionView::ShowIcon(icons + "/"@ + path_file_stem(apps + "/"@ + s.shown[line - 1])->0
            + ".png"@),
    ]);
}

/// Up moves the selection to the previous line and Down to the next, where
/// there is one (otherwise the selection stays); either key then tells the
/// window to select exactly the newly selected line and shows that line's
/// icon, and leaves the list as it was.
pub proof fn lemma_keys_select_and_show(s: LauncherView, apps: Seq<char>, icons: Seq<char>, key: Key)
    requires
        wf(s),
        key == Key::Up || key == Key::Down,
    ensures
        ({
            let h = spec_handle(s, apps, icons, EventView::KeyInput(key));
            let line = h.0.selected;
            &&& line == (if key == Key::Down {
                if s.selected < s.shown.len() {
                    s.selected + 1int
                } else {
                    s.selected as int
                }
            } else {
                if s.selected >= 2 {
                    s.selected - 1int
                } else {
                    s.selected as int
                }
            })
            &&& h.0.shown == s.shown
            &&& h.0.model == s.model
            &&& (path_file_stem(apps + "/"@ + line_text(s.shown, line)) matches Some(stem) ==> h.1
                == Ok::<Seq<ActionView>, LauncherError>(
                seq![
                    ActionView::SelectLine(line),
                    ActionView::ShowIcon(icons + "/"@ + stem + ".png"@),
                ],
            ))
            &&& (path_file_stem(apps + "/"@ + line_text(s.shown, line)) is None ==> h.1 == Err::<
                Seq<ActionView>,
                LauncherError,
            >(LauncherError::NoFileName))
        }),
{
    let h = spec_handle(s, apps, icons, EventView::KeyInput(key));
    let line = h.0.selected;
    assert(spec_selected_text(h.0) == line_text(s.shown, line));
    if let Some(stem) = path_file_stem(apps + "/"@ + line_text(s.shown, line)) {
        assert(seq![ActionView::SelectLine(line)].push(
            ActionView::ShowIcon(icons + "/"@ + stem + ".png"@),
        ) =~= seq![
            ActionView::SelectLine(line),
            ActionView::ShowIcon(icons + "/"@ + stem + ".png"@),
        ]);
    }
}

} // verus!
