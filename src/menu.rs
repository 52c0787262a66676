//! Reaction-driven paginated menus.
//!
//! A [`Menu`] is a state machine. The caller starts it, performs each
//! [`Action`] it asks for (send or edit the display message, seed the control
//! markers, wait for a reaction, run a handler, strip the reactions), and
//! reports the outcome back as an [`Event`], until the menu asks to finish.
//!
//! Three controls ship with the library: [`prev_page`], [`close_menu`] and
//! [`next_page`]. Custom controls carry an id; the caller runs the handler
//! that it stands for and then reports [`Event::Handled`].

use vstd::prelude::*;

use crate::error::Error;
use crate::reaction::{first_match, marker_views, no_match, ReactionType, ReactionView};

verus! {

/// A message on the chat platform, by channel and message id.
#[derive(Clone, Copy, Debug, PartialEq, Eq, Structural)]
pub struct MessageHandle {
    /// The channel that holds the message.
    pub channel_id: u64,
    /// The id of the message.
    pub message_id: u64,
}

/// What a control does when its marker is picked.
#[derive(Clone, Copy, Debug, PartialEq, Eq, Structural)]
pub enum ControlFunction {
    /// Moves to the previous page: see [`prev_page`].
    PrevPage,
    /// Closes the menu: see [`close_menu`].
    CloseMenu,
    /// Moves to the next page: see [`next_page`].
    NextPage,
    /// A handler of the caller's, by its id.
    Custom(u64),
}

/// A control of a menu: a marker and what picking it does.
///
/// The markers of a menu's controls are expected to be distinct; on lookup
/// the first control with the picked marker wins.
#[derive(Debug)]
pub struct Control {
    /// The marker of the control.
    pub emoji: ReactionType,
    /// What picking the marker does.
    pub function: ControlFunction,
}

impl Control {
    /// Creates a new [`Control`].
    pub fn new(emoji: ReactionType, function: ControlFunction) -> (r: Control)
        ensures
            r.emoji == emoji,
            r.function == function,
    {
        Control { emoji, function }
    }
}

/// Milliseconds a menu waits for a reaction, unless told otherwise.
pub const DEFAULT_TIMEOUT: u64 = 30000;

/// Options to tweak a menu.
#[derive(Debug)]
pub struct MenuOptions {
    /// The 0-indexed page to show. Defaults to `0`.
    pub page: usize,
    /// Milliseconds to wait for each reaction. Defaults to 30 seconds.
    pub timeout: u64,
    /// The message that shows the menu. If given at the start, it is edited
    /// instead of a new message being sent. Defaults to `None`.
    pub message: Option<MessageHandle>,
    /// The controls of the menu. Defaults to previous page, close, next page.
    pub controls: Vec<Control>,
    /// Whether the control markers are added in the background, so that the
    /// menu takes reactions before all markers are shown. Defaults to `true`.
    pub non_blocking: bool,
}

impl MenuOptions {
    /// Creates a new [`MenuOptions`].
    pub fn new(
        page: usize,
        timeout: u64,
        message: Option<MessageHandle>,
        controls: Vec<Control>,
        non_blocking: bool,
    ) -> (r: MenuOptions)
        ensures
            r == (MenuOptions { page, timeout, message, controls, non_blocking }),
    {
        MenuOptions { page, timeout, message, controls, non_blocking }
    }
}

/// The marker of the default previous-page control.
pub const PREV_EMOJI: char = '\u{25c0}';

/// The marker of the default close control.
pub const CLOSE_EMOJI: char = '\u{274c}';

/// The marker of the default next-page control.
pub const NEXT_EMOJI: char = '\u{25b6}';

impl Default for MenuOptions {
    fn default() -> (r: MenuOptions)
        ensures
            r.page == 0,
            r.timeout == DEFAULT_TIMEOUT,
            r.message is None,
            r.non_blocking,
            r.controls@.len() == 3,
            r.controls@[0].emoji@ == ReactionView::Unicode(seq![PREV_EMOJI]),
            r.controls@[0].function == ControlFunction::PrevPage,
            r.controls@[1].emoji@ == ReactionView::Unicode(seq![CLOSE_EMOJI]),
            r.controls@[1].function == ControlFunction::CloseMenu,
            r.controls@[2].emoji@ == ReactionView::Unicode(seq![NEXT_EMOJI]),
            r.controls@[2].function == ControlFunction::NextPage,
    {
        let mut controls: Vec<Control> = Vec::new();
        controls.push(Control::new(ReactionType::from_char(PREV_EMOJI), ControlFunction::PrevPage));
        controls.push(Control::new(ReactionType::from_char(CLOSE_EMOJI), ControlFunction::CloseMenu));
        controls.push(Control::new(ReactionType::from_char(NEXT_EMOJI), ControlFunction::NextPage));
        MenuOptions {
            page: 0,
            timeout: DEFAULT_TIMEOUT,
            message: None,
            controls,
            non_blocking: true,
        }
    }
}

/// Where a running menu stands.
#[derive(Clone, Copy, Debug, PartialEq, Eq, Structural)]
pub enum MenuState {
    /// Created, not started.
    Idle,
    /// Waiting for the display message to be sent.
    Sending,
    /// Waiting for the display message to be edited to the current page.
    Editing,
    /// Waiting for the control markers to be added.
    Seeding,
    /// Waiting for a reaction of the invoking user.
    Awaiting,
    /// Waiting for a control's handler to finish.
    Handling,
    /// Waiting for the reactions of the display message to be removed.
    Cleaning,
    /// Done: the menu has asked to finish.
    Finished,
}

/// The outcome of an [`Action`], reported back to the menu.
#[derive(Debug)]
pub enum Event {
    /// The display message was sent.
    Sent(MessageHandle),
    /// The display message was edited.
    Edited,
    /// The control markers were added (or handed to a background task).
    Seeded,
    /// The invoking user added this reaction to the display message.
    Added(ReactionType),
    /// The invoking user removed a reaction; the wait goes on.
    Removed,
    /// The wait ended with no reaction added.
    TimedOut,
    /// The handler that was asked for has finished.
    Handled,
    /// The reactions of the display message were removed.
    Cleaned,
    /// The action failed on the chat platform.
    Failed(Error),
}

/// What a menu asks its caller to do next.
#[derive(Debug)]
pub enum Action {
    /// Send the page at this index as a new display message, then report
    /// [`Event::Sent`].
    Send { page: usize },
    /// Edit the display message to the page at this index, then report
    /// [`Event::Edited`].
    Edit { message: MessageHandle, page: usize },
    /// Add these markers to the message in order, in the background if
    /// `non_blocking`, then report [`Event::Seeded`].
    Seed { message: MessageHandle, emojis: Vec<ReactionType>, non_blocking: bool },
    /// Wait up to `timeout` milliseconds for reactions of the invoking user on
    /// the message, and report the first one.
    Await { message: MessageHandle, timeout: u64 },
    /// Report the next reaction of the wait under way.
    Wait,
    /// Remove the reaction that was just reported (failures do not matter),
    /// then report [`Event::Handled`].
    DeleteReaction,
    /// Delete the message (failures do not matter), then report
    /// [`Event::Handled`].
    DeleteMessage { message: MessageHandle },
    /// Run the caller's handler with this id for the control at this index,
    /// then report [`Event::Handled`].
    Invoke { control: usize, id: u64 },
    /// Remove all reactions from the message, then report [`Event::Cleaned`].
    Clean { message: MessageHandle },
    /// Stop: this is what the menu returns.
    Finish(Result<Option<MessageHandle>, Error>),
}

/// A reaction menu: a number of pages, the options, and where it stands.
#[derive(Debug)]
pub struct Menu {
    /// The number of pages. The pages themselves stay with the caller.
    pub page_count: usize,
    /// The menu options.
    pub options: MenuOptions,
    /// Where the menu stands. Only [`Menu::start`] and [`Menu::step`] change it.
    pub state: MenuState,
    /// The error to return once the reactions are stripped, if any. Only
    /// [`Menu::step`] changes it.
    pub pending: Option<Error>,
}

/// The markers of the controls, in order.
pub open spec fn control_markers(controls: Seq<Control>) -> Seq<ReactionView> {
    controls.map_values(|c: Control| c.emoji@)
}

/// `r` fails with [`Error::Other`] and this message.
pub open spec fn fails_with_other<T>(r: Result<T, Error>, msg: Seq<char>) -> bool {
    r matches Err(Error::Other(s)) && s@ == msg
}

/// The page after `page`, wrapping past the last one.
pub open spec fn page_after(page: int, count: int) -> int {
    if page == count - 1 { 0 } else { page + 1 }
}

/// The page before `page`, wrapping past the first one.
pub open spec fn page_before(page: int, count: int) -> int {
    if page == 0 { count - 1 } else { page - 1 }
}

impl Menu {
    /// This menu, in state `s`.
    pub open spec fn in_state(self, s: MenuState) -> Menu {
        Menu { state: s, ..self }
    }

    /// This menu, showing page `p`.
    pub open spec fn at_page(self, p: int) -> Menu {
        Menu { options: MenuOptions { page: p as usize, ..self.options }, ..self }
    }

    /// This menu, with no display message.
    pub open spec fn without_message(self) -> Menu {
        Menu { options: MenuOptions { message: None, ..self.options }, ..self }
    }

    /// The state and the options agree: a page is shown or about to be,
    /// and a display message exists whenever one is being waited on.
    pub open spec fn wf(&self) -> bool {
        match self.state {
            MenuState::Sending => self.options.page < self.page_count,
            MenuState::Editing | MenuState::Seeding | MenuState::Awaiting => {
                self.options.page < self.page_count && self.options.message is Some
            },
            MenuState::Cleaning => self.options.message is Some,
            _ => true,
        }
    }

    /// This menu, in state `s` and with no pending error.
    pub open spec fn settled(self, s: MenuState) -> Menu {
        Menu { state: s, pending: None, ..self }
    }

    /// Creates a new [`Menu`] over `page_count` pages.
    pub fn new(page_count: usize, options: MenuOptions) -> (r: Menu)
        ensures
            r.page_count == page_count,
            r.options == options,
            r.state == MenuState::Idle,
            r.wf(),
    {
        Menu { page_count, options, state: MenuState::Idle, pending: None }
    }

    /// Whether the state and the options agree (see [`Menu::wf`]).
    pub fn is_consistent(&self) -> (r: bool)
        ensures
            r == self.wf(),
    {
        match self.state {
            MenuState::Sending => self.options.page < self.page_count,
            MenuState::Editing | MenuState::Seeding | MenuState::Awaiting => {
                self.options.page < self.page_count && self.options.message.is_some()
            },
            MenuState::Cleaning => self.options.message.is_some(),
            _ => true,
        }
    }
}

/// The message of a menu that found an event it was not waiting for.
pub open spec fn unexpected_event_message() -> Seq<char> {
    "the menu got an event it was not waiting for"@
}

/// The message of a menu with no pages.
pub open spec fn empty_pages_message() -> Seq<char> {
    "`pages` is empty."@
}

/// The message of a menu whose page is past the last one.
pub open spec fn page_out_of_bounds_message() -> Seq<char> {
    "`page` is out of bounds."@
}

/// `after` and `a` are what rendering the current page of `before` gives:
/// a failure when there is no such page, else an edit of the display
/// message, or the sending of a new one when there is none yet.
pub open spec fn renders(before: Menu, after: Menu, a: Action) -> bool {
    if before.page_count == 0 {
        after == before.in_state(MenuState::Finished)
            && (a matches Action::Finish(r) && fails_with_other(r, empty_pages_message()))
    } else if before.options.page >= before.page_count {
        after == before.in_state(MenuState::Finished)
            && (a matches Action::Finish(r) && fails_with_other(r, page_out_of_bounds_message()))
    } else {
        match before.options.message {
            Some(m) => after == before.in_state(MenuState::Editing)
                && a == (Action::Edit { message: m, page: before.options.page }),
            None => after == before.in_state(MenuState::Sending)
                && a == (Action::Send { page: before.options.page }),
        }
    }
}

/// `after` and `a` are what running the control at index `i` of `before`
/// gives: the built-in controls change the menu at once and ask for the
/// removal of the reaction or of the message; a custom one is handed out.
pub open spec fn dispatches(before: Menu, i: int, after: Menu, a: Action) -> bool {
    let page = before.options.page as int;
    let count = before.page_count as int;
    match before.options.controls@[i].function {
        ControlFunction::PrevPage => after == before.at_page(page_before(page, count)).in_state(
            MenuState::Handling,
        ) && a == Action::DeleteReaction,
        ControlFunction::NextPage => after == before.at_page(page_after(page, count)).in_state(
            MenuState::Handling,
        ) && a == Action::DeleteReaction,
        ControlFunction::CloseMenu => after == before.without_message().in_state(
            MenuState::Handling,
        ) && a == (Action::DeleteMessage { message: before.options.message->Some_0 }),
        ControlFunction::Custom(id) => after == before.in_state(MenuState::Handling) && a == (
        Action::Invoke { control: i as usize, id }),
    }
}

/// `after` and `a` are what the reaction `e` does to `before`: the first
/// control with that marker runs; a marker of no control ends the menu
/// once its reactions are stripped.
pub open spec fn picks(before: Menu, e: ReactionView, after: Menu, a: Action) -> bool {
    let markers = control_markers(before.options.controls@);
    if no_match(markers, e) {
        after == before.settled(MenuState::Cleaning)
            && a == (Action::Clean { message: before.options.message->Some_0 })
    } else {
        forall|i: int| first_match(markers, e, i) ==> dispatches(before, i, after, a)
    }
}

/// `after` and `a` are what a failure `err` of the chat platform does to
/// `before`: the reactions are stripped first where a display message exists.
pub open spec fn fails(before: Menu, err: Error, after: Menu, a: Action) -> bool {
    match before.options.message {
        Some(m) => after == (Menu { state: MenuState::Cleaning, pending: Some(err), ..before })
            && a == (Action::Clean { message: m }),
        None => after == before.in_state(MenuState::Finished) && a == Action::Finish(Err(err)),
    }
}

/// `after` and `a` are what the event `event` does to `before`.
pub open spec fn transition(before: Menu, event: Event, after: Menu, a: Action) -> bool {
    match (before.state, event) {
        (MenuState::Sending, Event::Sent(h)) => {
            &&& after == (Menu {
                options: MenuOptions { message: Some(h), ..before.options },
                state: MenuState::Seeding,
                ..before
            })
            &&& a matches Action::Seed { message, emojis, non_blocking }
            &&& message == h
            &&& non_blocking == before.options.non_blocking
            &&& marker_views(emojis@) == control_markers(before.options.controls@)
        },
        (MenuState::Editing, Event::Edited) | (MenuState::Seeding, Event::Seeded) => {
            after == before.in_state(MenuState::Awaiting) && a == (Action::Await {
                message: before.options.message->Some_0,
                timeout: before.options.timeout,
            })
        },
        (MenuState::Awaiting, Event::Removed) => after == before && a == Action::Wait,
        (MenuState::Awaiting, Event::Added(e)) => picks(before, e@, after, a),
        (MenuState::Awaiting, Event::TimedOut) => after == before.settled(MenuState::Cleaning)
            && a == (Action::Clean { message: before.options.message->Some_0 }),
        (MenuState::Sending, Event::Failed(err))
        | (MenuState::Editing, Event::Failed(err))
        | (MenuState::Seeding, Event::Failed(err))
        | (MenuState::Awaiting, Event::Failed(err)) => fails(before, err, after, a),
        (MenuState::Handling, Event::Handled) | (MenuState::Handling, Event::Failed(_)) => {
            match before.options.message {
                None => after == before.in_state(MenuState::Finished) && a == Action::Finish(
                    Ok(None),
                ),
                Some(_) => renders(before, after, a),
            }
        },
        (MenuState::Cleaning, Event::Cleaned) => after == before.settled(MenuState::Finished)
            && a == Action::Finish(
            match before.pending {
                Some(err) => Err(err),
                None => Ok(before.options.message),
            },
        ),
        (MenuState::Cleaning, Event::Failed(err)) => after == before.settled(MenuState::Finished)
            && a == Action::Finish(Err(err)),
        _ => after == before.in_state(MenuState::Finished) && (a matches Action::Finish(r)
            && fails_with_other(r, unexpected_event_message())),
    }
}

impl Menu {
    /// Starts the menu: asks for its first page to be shown.
    ///
    /// A menu that was started already finishes with an error.
    pub fn start(&mut self) -> (a: Action)
        ensures
            final(self).wf(),
            old(self).state == MenuState::Idle ==> renders(*old(self), *final(self), a),
            old(self).state != MenuState::Idle ==> *final(self) == old(self).in_state(
                MenuState::Finished,
            ) && (a matches Action::Finish(r) && fails_with_other(r, unexpected_event_message())),
    {
        if self.state == MenuState::Idle {
            self.render()
        } else {
            self.unexpected()
        }
    }

    /// Takes the outcome of the last action and says what to do next.
    pub fn step(&mut self, event: Event) -> (a: Action)
        requires
            old(self).wf(),
        ensures
            final(self).wf(),
            transition(*old(self), event, *final(self), a),
    {
        match self.state {
            MenuState::Sending => match event {
                Event::Sent(h) => {
                    self.options.message = Some(h);
                    self.state = MenuState::Seeding;
                    let emojis = self.markers();
                    Action::Seed { message: h, emojis, non_blocking: self.options.non_blocking }
                },
                Event::Failed(err) => self.fail(err),
                _ => self.unexpected(),
            },
            MenuState::Editing => match event {
                Event::Edited => self.wait(),
                Event::Failed(err) => self.fail(err),
                _ => self.unexpected(),
            },
            MenuState::Seeding => match event {
                Event::Seeded => self.wait(),
                Event::Failed(err) => self.fail(err),
                _ => self.unexpected(),
            },
            MenuState::Awaiting => match event {
                Event::Removed => Action::Wait,
                Event::Added(e) => self.dispatch(&e),
                Event::TimedOut => self.clean(),
                Event::Failed(err) => self.fail(err),
                _ => self.unexpected(),
            },
            MenuState::Handling => match event {
                Event::Handled | Event::Failed(_) => {
                    if self.options.message.is_none() {
                        self.state = MenuState::Finished;
                        Action::Finish(Ok(None))
                    } else {
                        self.render()
                    }
                },
                _ => self.unexpected(),
            },
            MenuState::Cleaning => match event {
                Event::Cleaned => {
                    let mut pending: Option<Error> = None;
                    std::mem::swap(&mut pending, &mut self.pending);
                    self.state = MenuState::Finished;
                    match pending {
                        Some(err) => Action::Finish(Err(err)),
                        None => Action::Finish(Ok(self.options.message)),
                    }
                },
                Event::Failed(err) => {
                    self.pending = None;
                    self.state = MenuState::Finished;
                    Action::Finish(Err(err))
                },
                _ => self.unexpected(),
            },
            _ => self.unexpected(),
        }
    }

    /// Shows the current page: edits the display message, or sends a new one.
    fn render(&mut self) -> (a: Action)
        ensures
            renders(*old(self), *final(self), a),
            final(self).wf(),
    {
        if self.page_count == 0 {
            self.state = MenuState::Finished;
            return Action::Finish(Err(Error::Other(String::from_str("`pages` is empty."))));
        }
        if self.options.page >= self.page_count {
            self.state = MenuState::Finished;
            return Action::Finish(Err(Error::Other(String::from_str("`page` is out of bounds."))));
        }
        match self.options.message {
            Some(m) => {
                self.state = MenuState::Editing;
                Action::Edit { message: m, page: self.options.page }
            },
            None => {
                self.state = MenuState::Sending;
                Action::Send { page: self.options.page }
            },
        }
    }

    /// The markers of the controls, in order.
    fn markers(&self) -> (r: Vec<ReactionType>)
        ensures
            marker_views(r@) == control_markers(self.options.controls@),
    {
        let mut r: Vec<ReactionType> = Vec::new();
        let mut i: usize = 0;
        while i < self.options.controls.len()
            invariant
                i <= self.options.controls@.len(),
                r@.len() == i,
                forall|j: int| 0 <= j < i ==> r@[j]@ == self.options.controls@[j].emoji@,
            decreases self.options.controls@.len() - i,
        {
            r.push(self.options.controls[i].emoji.duplicate());
            i = i + 1;
        }
        assert(marker_views(r@) =~= control_markers(self.options.controls@));
        r
    }

    /// Waits for a reaction on the display message.
    fn wait(&mut self) -> (a: Action)
        requires
            old(self).options.message is Some,
        ensures
            *final(self) == old(self).in_state(MenuState::Awaiting),
            a == (Action::Await {
                message: old(self).options.message->Some_0,
                timeout: old(self).options.timeout,
            }),
    {
        self.state = MenuState::Awaiting;
        match self.options.message {
            Some(m) => Action::Await { message: m, timeout: self.options.timeout },
            None => Action::Wait,
        }
    }

    /// Strips the reactions of the display message, then finishes normally.
    fn clean(&mut self) -> (a: Action)
        requires
            old(self).options.message is Some,
        ensures
            *final(self) == old(self).settled(MenuState::Cleaning),
            a == (Action::Clean { message: old(self).options.message->Some_0 }),
    {
        self.state = MenuState::Cleaning;
        self.pending = None;
        match self.options.message {
            Some(m) => Action::Clean { message: m },
            None => Action::Wait,
        }
    }

    /// Gives up after a failure of the chat platform.
    fn fail(&mut self, err: Error) -> (a: Action)
        ensures
            fails(*old(self), err, *final(self), a),
    {
        match self.options.message {
            Some(m) => {
                self.state = MenuState::Cleaning;
                self.pending = Some(err);
                Action::Clean { message: m }
            },
            None => {
                self.state = MenuState::Finished;
                Action::Finish(Err(err))
            },
        }
    }

    /// Finishes after an event that the menu was not waiting for.
    fn unexpected(&mut self) -> (a: Action)
        ensures
            *final(self) == old(self).in_state(MenuState::Finished),
            a matches Action::Finish(r) && fails_with_other(r, unexpected_event_message()),
    {
        self.state = MenuState::Finished;
        Action::Finish(
            Err(Error::Other(String::from_str("the menu got an event it was not waiting for"))),
        )
    }

    /// The index of the first control whose marker is `reaction`.
    fn process_reaction(&self, reaction: &ReactionType) -> (r: Option<usize>)
        ensures
            match r {
                Some(i) => first_match(control_markers(self.options.controls@), reaction@, i as int),
                None => no_match(control_markers(self.options.controls@), reaction@),
            },
    {
        let mut i: usize = 0;
        while i < self.options.controls.len()
            invariant
                i <= self.options.controls@.len(),
                forall|j: int| 0 <= j < i ==> self.options.controls@[j].emoji@ != reaction@,
            decreases self.options.controls@.len() - i,
        {
            if self.options.controls[i].emoji.same_as(reaction) {
                return Some(i);
            }
            i = i + 1;
        }
        None
    }

    /// Runs the control that the reaction `e` picks, if any.
    fn dispatch(&mut self, e: &ReactionType) -> (a: Action)
        requires
            old(self).state == MenuState::Awaiting,
            old(self).wf(),
        ensures
            picks(*old(self), e@, *final(self), a),
            final(self).wf(),
    {
        match self.process_reaction(e) {
            None => self.clean(),
            Some(i) => {
                self.state = MenuState::Handling;
                match self.options.controls[i].function {
                    ControlFunction::PrevPage => {
                        prev_page(self);
                        Action::DeleteReaction
                    },
                    ControlFunction::NextPage => {
                        next_page(self);
                        Action::DeleteReaction
                    },
                    ControlFunction::CloseMenu => match close_menu(self) {
                        Some(m) => Action::DeleteMessage { message: m },
                        None => Action::DeleteReaction,
                    },
                    ControlFunction::Custom(id) => Action::Invoke { control: i, id },
                }
            },
        }
    }
}

/// Moves a menu one page forward, wrapping from the last page to the first.
pub fn next_page(menu: &mut Menu)
    requires
        old(menu).options.page < old(menu).page_count,
    ensures
        *final(menu) == old(menu).at_page(
            page_after(old(menu).options.page as int, old(menu).page_count as int),
        ),
        old(menu).options.page == old(menu).page_count - 1 ==> final(menu).options.page == 0,
        old(menu).options.page < old(menu).page_count - 1 ==> final(menu).options.page
            == old(menu).options.page + 1,
{
    if menu.options.page == menu.page_count - 1 {
        menu.options.page = 0;
    } else {
        menu.options.page = menu.options.page + 1;
    }
}

/// Moves a menu one page back, wrapping from the first page to the last.
pub fn prev_page(menu: &mut Menu)
    requires
        old(menu).options.page < old(menu).page_count,
    ensures
        *final(menu) == old(menu).at_page(
            page_before(old(menu).options.page as int, old(menu).page_count as int),
        ),
        old(menu).options.page == 0 ==> final(menu).options.page == old(menu).page_count - 1,
        old(menu).options.page > 0 ==> final(menu).options.page == old(menu).options.page - 1,
{
    if menu.options.page == 0 {
        menu.options.page = menu.page_count - 1;
    } else {
        menu.options.page = menu.options.page - 1;
    }
}

/// Closes a menu: takes its display message away and returns it, for the
/// caller to delete. A menu with no display message is left as it is.
pub fn close_menu(menu: &mut Menu) -> (r: Option<MessageHandle>)
    ensures
        r == old(menu).options.message,
        *final(menu) == old(menu).without_message(),
{
    let m = menu.options.message;
    menu.options.message = None;
    m
}

/// Closing a menu twice is safe: the second close finds no display message,
/// returns none, and changes nothing.
pub proof fn close_menu_twice(m: Menu)
    ensures
        m.without_message().options.message is None,
        m.without_message().without_message() == m.without_message(),
{
}

/// Rendering a menu whose page is one of its pages never fails: it asks
/// for the display message to be edited or sent.
pub proof fn render_of_valid_page_succeeds(before: Menu, after: Menu, a: Action)
    requires
        before.page_count > 0,
        before.options.page < before.page_count,
        renders(before, after, a),
    ensures
        a is Edit || a is Send,
        !(a is Finish),
{
}

/// A menu with no pages, or started past its last page, finishes at once
/// with an error and asks for no call to the chat platform.
pub proof fn start_of_invalid_menu_fails(before: Menu, after: Menu, a: Action)
    requires
        before.state == MenuState::Idle,
        before.page_count == 0 || before.options.page >= before.page_count,
        renders(before, after, a),
    ensures
        after.state == MenuState::Finished,
        a matches Action::Finish(r) && r matches Err(Error::Other(_)),
{
}

} // verus!
