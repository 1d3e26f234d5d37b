use vstd::prelude::*;
use crate::task::{add_task, joined, remove_task, string_views, texts, RemoveError, Task};
use crate::text::{
    added_message, added_text, list_lines, listing, missing_message, missing_text,
    removed_message, removed_text,
};

verus! {

/// What the user asked for.
pub enum Command {
    /// Add one task made of these words joined by spaces.
    Add(Vec<String>),
    /// Remove the task at this 1-based position.
    Remove(usize),
    /// Show all tasks.
    List,
}

/// The result of one command on the loaded tasks: the list to save, if the
/// command changed it, and the lines for the normal and the error channel.
pub struct Outcome {
    pub save: Option<Vec<Task>>,
    pub out: Vec<String>,
    pub err: Vec<String>,
}

/// Runs one command on the tasks that were loaded. Only a successful add or
/// remove asks for a save; a refused remove and a listing leave storage alone.
pub fn run_command(command: Command, tasks: Vec<Task>) -> (r: Outcome)
    ensures
        command matches Command::Add(words) ==> {
            &&& r.save matches Some(saved)
            &&& texts(saved@) == texts(tasks@).push(joined(string_views(words@)))
            &&& string_views(r.out@) == seq![added_message(joined(string_views(words@)))]
            &&& r.err@.len() == 0
        },
        command matches Command::Remove(p) ==> if 1 <= p <= tasks@.len() {
            &&& r.save matches Some(saved)
            &&& texts(saved@) == texts(tasks@).remove(p - 1)
            &&& string_views(r.out@) == seq![removed_message(p as nat)]
            &&& r.err@.len() == 0
        } else {
            &&& r.save is None
            &&& r.out@.len() == 0
            &&& string_views(r.err@) == seq![missing_message(p as nat)]
        },
        command is List ==> {
            &&& r.save is None
            &&& string_views(r.out@) == listing(texts(tasks@))
            &&& r.err@.len() == 0
        },
{
    let mut tasks = tasks;
    match command {
        Command::Add(words) => {
            let text = add_task(&mut tasks, &words);
            let out = vec![added_text(&text)];
            assert(string_views(out@) =~= seq![added_message(text@)]);
            Outcome { save: Some(tasks), out, err: Vec::new() }
        },
        Command::Remove(p) => match remove_task(&mut tasks, p) {
            Ok(_) => {
                let out = vec![removed_text(p)];
                assert(string_views(out@) =~= seq![removed_message(p as nat)]);
                Outcome { save: Some(tasks), out, err: Vec::new() }
            },
            Err(RemoveError::NoSuchTask(q)) => {
                let err = vec![missing_text(q)];
                assert(string_views(err@) =~= seq![missing_message(p as nat)]);
                Outcome { save: None, out: Vec::new(), err }
            },
        },
        Command::List => {
            let out = list_lines(&tasks);
            Outcome { save: None, out, err: Vec::new() }
        },
    }
}

} // verus!
