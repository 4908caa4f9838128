//! The application loop's state and its reaction to events.
//!
//! The loop around this module draws the state, waits for an event and
//! hands it to [`App::handle_event`]. The answer is a [`Command`]: what the
//! loop has to do outside the library before it draws again. Where that
//! means reading the registry, the loop passes what it read, or the
//! failure, to the method that finishes the command.

use crate::cursor::{advanced, reclamped, retreated, selection_valid, SelectionCursor};
use crate::env_file::{lookup, EnvVars};
use crate::event::{Event, Key};
use crate::outside::{debug_quoted, debug_text, decode_lossy, lossy_text};
use crate::record::RunPy;
use crate::registry::{add_random_script_to_db, error_text, is_random_record, remove_at, Error};
use vstd::prelude::*;
use vstd::std_specs::convert::FromSpecImpl;
use vstd::string::*;

verus! {

/// The tabs of the menu.
#[derive(Clone, Copy, Debug, PartialEq, Eq, Structural)]
pub enum MenuItem {
    Home,
    RunPy,
}

/// The place of a tab in the menu bar.
pub open spec fn menu_index(item: MenuItem) -> usize {
    match item {
        MenuItem::Home => 0,
        MenuItem::RunPy => 1,
    }
}

impl From<MenuItem> for usize {
    fn from(input: MenuItem) -> (index: usize) {
        match input {
            MenuItem::Home => 0,
            MenuItem::RunPy => 1,
        }
    }
}

impl FromSpecImpl<MenuItem> for usize {
    open spec fn obeys_from_spec() -> bool {
        true
    }

    open spec fn from_spec(input: MenuItem) -> usize {
        menu_index(input)
    }
}

/// What the loop has to do after an event, before it draws again.
#[derive(Clone, Copy, Debug, PartialEq, Eq, Structural)]
pub enum Command {
    /// Nothing outside the library.
    Redraw,
    /// Leave the loop.
    Quit,
    /// Read the registry and finish with [`App::add_random_script`].
    AddScript,
    /// Read the registry and finish with [`App::remove_script_at_index`].
    RemoveScript,
    /// Read the registry and finish with [`App::select_next`].
    SelectNext,
    /// Read the registry and finish with [`App::select_previous`].
    SelectPrevious,
    /// Read the registry and go on with [`App::script_to_run`].
    RunScript,
    /// Write the records that `overwrite_json` gives.
    Reinitialize,
}

/// What a finished run of the interpreter left behind.
#[derive(Clone, Debug, PartialEq, Eq)]
pub struct RunResult {
    pub stdout: Vec<u8>,
    pub stderr: Vec<u8>,
    pub succeeded: bool,
}

/// The state that the loop owns: the open tab, the cursor, the two message
/// lines, the flag that guards reinitialising, and the two settings.
#[derive(Clone, Debug, PartialEq, Eq)]
pub struct App {
    pub active_menu_item: MenuItem,
    pub py_list_state: SelectionCursor,
    pub action_msg: String,
    pub log_msg: String,
    pub ready_to_init_db: bool,
    pub database_addr: String,
    pub python_bind: String,
}

/// The state with its texts as sequences of characters.
pub struct AppView {
    pub active_menu_item: MenuItem,
    pub selected: Option<nat>,
    pub action_msg: Seq<char>,
    pub log_msg: Seq<char>,
    pub ready_to_init_db: bool,
    pub database_addr: Seq<char>,
    pub python_bind: Seq<char>,
}

impl View for App {
    type V = AppView;

    open spec fn view(&self) -> AppView {
        AppView {
            active_menu_item: self.active_menu_item,
            selected: self.py_list_state@,
            action_msg: self.action_msg@,
            log_msg: self.log_msg@,
            ready_to_init_db: self.ready_to_init_db,
            database_addr: self.database_addr@,
            python_bind: self.python_bind@,
        }
    }
}

/// The name of the script that is run when the selected one is not found.
pub open spec fn default_script() -> Seq<char> {
    "default_script.py"@
}

/// The log line shown while the flag is armed.
pub open spec fn armed_text() -> Seq<char> {
    "InitDB Flag is ON. Do you want to initialize DB?\nPress y at anytime to proceed.\nPress i again to remove InitDB Flag."@
}

/// The log line shown when the flag is taken back.
pub open spec fn disarmed_text() -> Seq<char> {
    "InitDB Flag is OFF"@
}

/// The log line shown when the registry was started over.
pub open spec fn reinitialized_text() -> Seq<char> {
    "You Initialized json DB"@
}

/// The action line shown when the last record is asked to go.
pub open spec fn only_one_left_text() -> Seq<char> {
    "registry has only one element left, operation skipped"@
}

/// The state in which the program starts, before any setting is read.
pub open spec fn initial_state() -> AppView {
    AppView {
        active_menu_item: MenuItem::Home,
        selected: Some(0nat),
        action_msg: "Nothing being pressed yet..."@,
        log_msg: "Initial log."@,
        ready_to_init_db: false,
        database_addr: "./data/db.json"@,
        python_bind: "python3"@,
    }
}

/// The open tab after a key: `h` and `r` switch it.
pub open spec fn menu_after(menu: MenuItem, key: Key) -> MenuItem {
    if key == Key::Char('h') {
        MenuItem::Home
    } else if key == Key::Char('r') {
        MenuItem::RunPy
    } else {
        menu
    }
}

/// The flag after a key: `i` flips it, `y` takes it back.
pub open spec fn armed_after(armed: bool, key: Key) -> bool {
    if key == Key::Char('i') {
        !armed
    } else if key == Key::Char('y') {
        false
    } else {
        armed
    }
}

/// The log line after a key: `i` announces the new state of the flag, `y`
/// on an armed flag announces the new registry.
pub open spec fn log_after(log: Seq<char>, armed: bool, key: Key) -> Seq<char> {
    if key == Key::Char('i') {
        if armed {
            disarmed_text()
        } else {
            armed_text()
        }
    } else if key == Key::Char('y') && armed {
        reinitialized_text()
    } else {
        log
    }
}

/// The selection after a key: `y` on an armed flag puts it on the first
/// record.
pub open spec fn selection_after(selected: Option<nat>, armed: bool, key: Key) -> Option<nat> {
    if key == Key::Char('y') && armed {
        Some(0nat)
    } else {
        selected
    }
}

/// The state after the key `key`, reported by the terminal as `label`.
pub open spec fn after_key(state: AppView, key: Key, label: Seq<char>) -> AppView {
    AppView {
        active_menu_item: menu_after(state.active_menu_item, key),
        selected: selection_after(state.selected, state.ready_to_init_db, key),
        action_msg: "pressed --- "@ + label,
        log_msg: log_after(state.log_msg, state.ready_to_init_db, key),
        ready_to_init_db: armed_after(state.ready_to_init_db, key),
        database_addr: state.database_addr,
        python_bind: state.python_bind,
    }
}

/// What the loop has to do after the key `key`.
pub open spec fn key_command(state: AppView, key: Key) -> Command {
    if key == Key::Char('q') {
        Command::Quit
    } else if key == Key::Char('a') {
        Command::AddScript
    } else if key == Key::Char('d') && state.selected is Some {
        Command::RemoveScript
    } else if key == Key::Down && state.selected is Some {
        Command::SelectNext
    } else if key == Key::Up && state.selected is Some {
        Command::SelectPrevious
    } else if key == Key::Enter && state.active_menu_item == MenuItem::RunPy
        && state.selected is Some {
        Command::RunScript
    } else if key == Key::Char('y') && state.ready_to_init_db {
        Command::Reinitialize
    } else {
        Command::Redraw
    }
}

/// The state after a failure was reported: the log line says what failed.
pub open spec fn with_error(state: AppView, error: Error) -> AppView {
    AppView { log_msg: error_text(error), ..state }
}

/// The state after the settings of a file were applied: a setting that the
/// file names replaces the one in force, the others stay.
pub open spec fn configured(state: AppView, entries: Seq<(Seq<char>, Seq<char>)>) -> AppView {
    AppView {
        database_addr: match lookup(entries, "DATABASE_ADDR"@) {
            Some(path) => path,
            None => state.database_addr,
        },
        python_bind: match lookup(entries, "PYTHON_BIND"@) {
            Some(binary) => binary,
            None => state.python_bind,
        },
        ..state
    }
}

/// The record under the cursor, if the cursor names one.
pub open spec fn selected_in(selected: Option<nat>, registry: Seq<RunPy>) -> Option<RunPy> {
    match selected {
        Some(k) => if k < registry.len() {
            Some(registry[k as int])
        } else {
            None
        },
        None => None,
    }
}

/// Whether the record under the cursor may leave a registry of `len`
/// records: the cursor names one of them, and it is not the only one.
pub open spec fn can_remove(selected: Option<nat>, len: nat) -> bool {
    selected matches Some(k) && len > 1 && k < len
}

/// The state after `d` met a registry of `len` records: a refusal in the
/// action line if one record is left, the cursor settled beside the gap if
/// a record went, and no change otherwise.
pub open spec fn after_removal(state: AppView, len: nat) -> AppView {
    match state.selected {
        Some(k) => if len == 1 {
            AppView { action_msg: only_one_left_text(), ..state }
        } else if k < len {
            AppView { selected: reclamped(k, (len - 1) as nat), ..state }
        } else {
            state
        },
        None => state,
    }
}

/// The state after `Down` met a registry of `len` records.
pub open spec fn after_next(state: AppView, len: nat) -> AppView {
    if len > 0 {
        AppView { selected: advanced(state.selected, len), ..state }
    } else {
        state
    }
}

/// The state after `Up` met a registry of `len` records.
pub open spec fn after_previous(state: AppView, len: nat) -> AppView {
    if len > 0 {
        AppView { selected: retreated(state.selected, len), ..state }
    } else {
        state
    }
}

/// The script that is run for the selected record: its own file if that was
/// found, the default script if not.
pub open spec fn chosen_script(target: Seq<char>, found: bool) -> Seq<char> {
    if found {
        target
    } else {
        default_script()
    }
}

/// The action line that names the script about to run.
pub open spec fn executed_text(target: Seq<char>, found: bool) -> Seq<char> {
    if found {
        "Executed --- "@ + debug_text(target)
    } else {
        "Executed --- default_script.py"@
    }
}

/// What a finished run shows in the log: what it printed if it succeeded,
/// what it complained of if it failed.
pub open spec fn run_output(result: RunResult) -> Seq<char> {
    if result.succeeded {
        lossy_text(result.stdout@)
    } else {
        lossy_text(result.stderr@)
    }
}

impl App {

    /// The state in which the program starts.
    pub fn new() -> (app: Self)
        ensures
            app@ == initial_state(),
    {
        App {
            active_menu_item: MenuItem::Home,
            py_list_state: SelectionCursor::new(),
            action_msg: String::from_str("Nothing being pressed yet..."),
            log_msg: String::from_str("Initial log."),
            ready_to_init_db: false,
            database_addr: String::from_str("./data/db.json"),
            python_bind: String::from_str("python3"),
        }
    }

    /// Reacts to an event and says what the loop has to do next.
    ///
    /// A tick changes nothing. A key press first puts the key's name into
    /// the action line, then does what the key stands for.
    pub fn handle_event(&mut self, event: &Event) -> (command: Command)
        ensures
            match *event {
                Event::Tick => final(self)@ == old(self)@ && command == Command::Redraw,
                Event::Input(press) => {
                    &&& final(self)@ == after_key(old(self)@, press.key, press.label@)
                    &&& command == key_command(old(self)@, press.key)
                },
            },
    {
        match event {
            Event::Tick => Command::Redraw,
            Event::Input(press) => {
                self.action_msg = String::from_str("pressed --- ").concat(press.label.as_str());
                let has_selection = self.py_list_state.selected().is_some();
                match press.key {
                    Key::Char(c) => {
                        if c == 'q' {
                            Command::Quit
                        } else if c == 'h' {
                            self.active_menu_item = MenuItem::Home;
                            Command::Redraw
                        } else if c == 'r' {
                            self.active_menu_item = MenuItem::RunPy;
                            Command::Redraw
                        } else if c == 'a' {
                            Command::AddScript
                        } else if c == 'd' {
                            if has_selection {
                                Command::RemoveScript
                            } else {
                                Command::Redraw
                            }
                        } else if c == 'i' {
                            if self.ready_to_init_db {
                                self.log_msg = String::from_str("InitDB Flag is OFF");
                                self.ready_to_init_db = false;
                            } else {
                                self.log_msg = String::from_str(
                                    "InitDB Flag is ON. Do you want to initialize DB?\nPress y at anytime to proceed.\nPress i again to remove InitDB Flag.",
                                );
                                self.ready_to_init_db = true;
                            }
                            Command::Redraw
                        } else if c == 'y' {
                            if self.ready_to_init_db {
                                self.py_list_state.select(Some(0));
                                self.log_msg = String::from_str("You Initialized json DB");
                                self.ready_to_init_db = false;
                                Command::Reinitialize
                            } else {
                                Command::Redraw
                            }
                        } else {
                            Command::Redraw
                        }
                    },
                    Key::Down => {
                        if has_selection {
                            Command::SelectNext
                        } else {
                            Command::Redraw
                        }
                    },
                    Key::Up => {
                        if has_selection {
                            Command::SelectPrevious
                        } else {
                            Command::Redraw
                        }
                    },
                    Key::Enter => {
                        if self.active_menu_item == MenuItem::RunPy && has_selection {
                            Command::RunScript
                        } else {
                            Command::Redraw
                        }
                    },
                    Key::Other => Command::Redraw,
                }
            },
        }
    }

    /// Names the registry file.
    pub fn set_db_addr(&mut self, new_value: &str)
        ensures
            final(self)@ == (AppView { database_addr: new_value@, ..old(self)@ }),
    {
        self.database_addr = String::from_str(new_value);
    }

    /// Names the interpreter.
    pub fn set_py_bind(&mut self, new_value: &str)
        ensures
            final(self)@ == (AppView { python_bind: new_value@, ..old(self)@ }),
    {
        self.python_bind = String::from_str(new_value);
    }

    /// Replaces the action line.
    pub fn set_action_msg(&mut self, new_value: &str)
        ensures
            final(self)@ == (AppView { action_msg: new_value@, ..old(self)@ }),
    {
        self.action_msg = String::from_str(new_value);
    }

    /// Replaces the log line.
    pub fn set_log_msg(&mut self, new_value: &str)
        ensures
            final(self)@ == (AppView { log_msg: new_value@, ..old(self)@ }),
    {
        self.log_msg = String::from_str(new_value);
    }

    /// Arms the flag that guards reinitialising, or takes it back.
    pub fn set_init_db_status(&mut self, new_value: bool)
        ensures
            final(self)@ == (AppView { ready_to_init_db: new_value, ..old(self)@ }),
    {
        self.ready_to_init_db = new_value;
    }

    /// Applies the settings of a settings file. `DATABASE_ADDR` names the
    /// registry file and `PYTHON_BIND` the interpreter; other keys are
    /// passed over.
    pub fn configure(&mut self, vars: &EnvVars)
        ensures
            final(self)@ == configured(old(self)@, vars@),
    {
        if let Some(path) = vars.get("DATABASE_ADDR") {
            self.database_addr = path;
        }
        if let Some(binary) = vars.get("PYTHON_BIND") {
            self.python_bind = binary;
        }
    }

    /// Puts a failure into the log line.
    pub fn report_error(&mut self, error: &Error)
        ensures
            final(self)@ == with_error(old(self)@, *error),
    {
        self.log_msg = error.message();
    }

    /// The index to highlight in a registry of `len` records: that of the
    /// cursor if it names one of them, and none if it does not.
    pub fn highlighted(&self, len: usize) -> (index: Option<usize>)
        ensures
            match index {
                Some(k) => self@.selected == Some(k as nat) && k < len,
                None => !(self@.selected matches Some(k) && k < len),
            },
    {
        match self.py_list_state.selected() {
            Some(k) => {
                if k < len {
                    Some(k)
                } else {
                    None
                }
            },
            None => None,
        }
    }

    /// The record under the cursor, if the cursor names one of `registry`.
    pub fn selected_record<'a>(&self, registry: &'a Vec<RunPy>) -> (record: Option<&'a RunPy>)
        ensures
            match record {
                Some(found) => selected_in(self@.selected, registry@) == Some(*found),
                None => selected_in(self@.selected, registry@) is None,
            },
    {
        match self.highlighted(registry.len()) {
            Some(k) => Some(&registry[k]),
            None => None,
        }
    }

    /// Finishes `a`: draws a record and adds it at the end of the registry
    /// that was read. Gives the records to write; the state stays as it
    /// is. Where the registry could not be read, nothing is to be written
    /// and the log line says why.
    pub fn add_random_script(&mut self, loaded: Result<Vec<RunPy>, Error>) -> (write: Option<
        Vec<RunPy>,
    >)
        ensures
            match loaded {
                Ok(registry) => {
                    &&& final(self)@ == old(self)@
                    &&& write matches Some(grown)
                    &&& grown@.len() == registry@.len() + 1
                    &&& grown@.drop_last() == registry@
                    &&& is_random_record(grown@.last()@)
                },
                Err(error) => write is None && final(self)@ == with_error(old(self)@, error),
            },
    {
        match loaded {
            Ok(registry) => Some(add_random_script_to_db(registry)),
            Err(error) => {
                self.report_error(&error);
                None
            },
        }
    }

    /// Finishes `d`: takes the record under the cursor out of the registry
    /// that was read and settles the cursor beside the gap. Gives the
    /// records to write, if a record went.
    ///
    /// The last record never goes: the action line then says so. A cursor
    /// that names no record of the registry changes nothing. Where the
    /// registry could not be read, the log line says why.
    pub fn remove_script_at_index(&mut self, loaded: Result<Vec<RunPy>, Error>) -> (write: Option<
        Vec<RunPy>,
    >)
        ensures
            match loaded {
                Ok(registry) => {
                    &&& final(self)@ == after_removal(old(self)@, registry@.len())
                    &&& match write {
                        Some(shrunk) => {
                            &&& can_remove(old(self)@.selected, registry@.len())
                            &&& shrunk@ == registry@.remove(old(self)@.selected->0 as int)
                        },
                        None => !can_remove(old(self)@.selected, registry@.len()),
                    }
                },
                Err(error) => write is None && final(self)@ == with_error(old(self)@, error),
            },
    {
        match loaded {
            Ok(registry) => {
                let mut registry = registry;
                match self.py_list_state.selected() {
                    Some(k) => {
                        if registry.len() == 1 {
                            self.action_msg = String::from_str(
                                "registry has only one element left, operation skipped",
                            );
                            None
                        } else if remove_at(&mut registry, k) {
                            self.py_list_state.clamp_after_removal(k, registry.len());
                            Some(registry)
                        } else {
                            None
                        }
                    },
                    None => None,
                }
            },
            Err(error) => {
                self.report_error(&error);
                None
            },
        }
    }

    /// Finishes `Down`: moves the cursor to the next record of the registry
    /// that was read, from the last to the first. An empty registry leaves
    /// the cursor where it is. Where the registry could not be read, the
    /// log line says why.
    pub fn select_next(&mut self, loaded: Result<Vec<RunPy>, Error>)
        ensures
            match loaded {
                Ok(registry) => final(self)@ == after_next(old(self)@, registry@.len()),
                Err(error) => final(self)@ == with_error(old(self)@, error),
            },
    {
        match loaded {
            Ok(registry) => {
                if registry.len() > 0 {
                    self.py_list_state.advance(registry.len());
                }
            },
            Err(error) => {
                self.report_error(&error);
            },
        }
    }

    /// Finishes `Up`: moves the cursor to the previous record of the
    /// registry that was read, from the first to the last. An empty
    /// registry leaves the cursor where it is. Where the registry could not
    /// be read, the log line says why.
    pub fn select_previous(&mut self, loaded: Result<Vec<RunPy>, Error>)
        ensures
            match loaded {
                Ok(registry) => final(self)@ == after_previous(old(self)@, registry@.len()),
                Err(error) => final(self)@ == with_error(old(self)@, error),
            },
    {
        match loaded {
            Ok(registry) => {
                if registry.len() > 0 {
                    self.py_list_state.retreat(registry.len());
                }
            },
            Err(error) => {
                self.report_error(&error);
            },
        }
    }

    /// The first step of `Enter`: the file of the record under the cursor,
    /// for the loop to look for. Nothing comes back if the cursor names no
    /// record of the registry that was read, or if the registry could not
    /// be read; the log line then says why.
    pub fn script_to_run(&mut self, loaded: Result<Vec<RunPy>, Error>) -> (target: Option<String>)
        ensures
            match loaded {
                Ok(registry) => {
                    &&& final(self)@ == old(self)@
                    &&& match target {
                        Some(name) => {
                            &&& selected_in(old(self)@.selected, registry@) matches Some(record)
                            &&& name@ == record.target@
                        },
                        None => selected_in(old(self)@.selected, registry@) is None,
                    }
                },
                Err(error) => target is None && final(self)@ == with_error(old(self)@, error),
            },
    {
        match loaded {
            Ok(registry) => {
                match self.selected_record(&registry) {
                    Some(record) => Some(record.target.clone()),
                    None => None,
                }
            },
            Err(error) => {
                self.report_error(&error);
                None
            },
        }
    }

    /// The second step of `Enter`: which script to run, once the loop has
    /// looked for `target` in the working directory. A file that was found
    /// is run; for one that was not, the default script runs in its place.
    /// The action line names the script either way.
    pub fn choose_script(&mut self, target: String, found: bool) -> (script: String)
        ensures
            script@ == chosen_script(target@, found),
            final(self)@ == (AppView {
                action_msg: executed_text(target@, found),
                ..old(self)@
            }),
    {
        if found {
            self.action_msg = String::from_str("Executed --- ").concat(
                debug_quoted(target.as_str()).as_str(),
            );
            target
        } else {
            self.action_msg = String::from_str("Executed --- default_script.py");
            String::from_str("default_script.py")
        }
    }

    /// The last step of `Enter`: puts what the run printed into the log
    /// line, or why the interpreter did not start.
    pub fn finish_run(&mut self, outcome: Result<RunResult, Error>)
        ensures
            final(self)@ == match outcome {
                Ok(result) => AppView { log_msg: run_output(result), ..old(self)@ },
                Err(error) => with_error(old(self)@, error),
            },
    {
        match outcome {
            Ok(result) => {
                if result.succeeded {
                    self.log_msg = decode_lossy(&result.stdout);
                } else {
                    self.log_msg = decode_lossy(&result.stderr);
                }
            },
            Err(error) => {
                self.report_error(&error);
            },
        }
    }
}

/// Starting the registry over takes two steps.
///
/// `i` flips the flag, leaves the cursor alone and asks nothing of the
/// loop, so that pressing it twice brings the flag back. `y` on a flag that
/// is not armed changes nothing but the action line and asks nothing of the
/// loop. `y` on an armed flag asks for the fresh registry, takes the flag
/// back and puts the cursor on the first record.
pub proof fn lemma_confirmation_takes_two_steps(state: AppView, first: Seq<char>, second: Seq<char>)
    ensures
        key_command(state, Key::Char('i')) == Command::Redraw,
        after_key(state, Key::Char('i'), first).ready_to_init_db == !state.ready_to_init_db,
        after_key(state, Key::Char('i'), first).selected == state.selected,
        key_command(after_key(state, Key::Char('i'), first), Key::Char('i')) == Command::Redraw,
        after_key(
            after_key(state, Key::Char('i'), first),
            Key::Char('i'),
            second,
        ).ready_to_init_db == state.ready_to_init_db,
        !state.ready_to_init_db ==> {
            &&& key_command(state, Key::Char('y')) == Command::Redraw
            &&& after_key(state, Key::Char('y'), first) == (AppView {
                action_msg: "pressed --- "@ + first,
                ..state
            })
        },
        state.ready_to_init_db ==> {
            &&& key_command(state, Key::Char('y')) == Command::Reinitialize
            &&& !after_key(state, Key::Char('y'), first).ready_to_init_db
            &&& after_key(state, Key::Char('y'), first).selected == Some(0nat)
        },
{
}

/// The registry changes on three keys only: a command that ends in a write
/// comes from `a`, from `d` or from `y`, and from `y` only on an armed flag.
pub proof fn lemma_writes_come_from_three_keys(state: AppView, key: Key)
    ensures
        key_command(state, key) == Command::AddScript <==> key == Key::Char('a'),
        key_command(state, key) == Command::RemoveScript ==> key == Key::Char('d'),
        key_command(state, key) == Command::Reinitialize <==> (key == Key::Char('y')
            && state.ready_to_init_db),
{
}

/// After a record left, the cursor rests on its predecessor, or on the first
/// record if it had none, and names a record of the shorter registry.
pub proof fn lemma_removal_settles_cursor(state: AppView, len: nat)
    requires
        can_remove(state.selected, len),
    ensures
        after_removal(state, len).selected == Some(
            if state.selected->0 > 0 {
                (state.selected->0 - 1) as nat
            } else {
                0nat
            },
        ),
        selection_valid(after_removal(state, len).selected, (len - 1) as nat),
{
}

/// A cursor that names a record keeps naming one, whatever is done to a
/// registry of `len` records: moving, removing, adding a record or
/// starting over.
pub proof fn lemma_cursor_stays_valid(state: AppView, len: nat, key: Key, label: Seq<char>)
    requires
        len > 0,
        selection_valid(state.selected, len),
    ensures
        selection_valid(after_next(state, len).selected, len),
        selection_valid(after_previous(state, len).selected, len),
        selection_valid(
            after_removal(state, len).selected,
            if can_remove(state.selected, len) {
                (len - 1) as nat
            } else {
                len
            },
        ),
        selection_valid(state.selected, len + 1),
        key_command(state, key) == Command::Reinitialize ==> selection_valid(
            after_key(state, key, label).selected,
            1,
        ),
        key_command(state, key) != Command::Reinitialize ==> after_key(state, key, label).selected
            == state.selected,
{
}

} // verus!
