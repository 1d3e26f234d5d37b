use vstd::prelude::*;

verus! {

/// One to-do item; its identity is its position in the list.
pub struct Task {
    pub text: String,
}

impl View for Task {
    type V = Seq<char>;

    open spec fn view(&self) -> Seq<char> {
        self.text@
    }
}

/// The texts of a sequence of tasks, in order.
pub open spec fn texts(tasks: Seq<Task>) -> Seq<Seq<char>> {
    tasks.map_values(|t: Task| t.text@)
}

/// The words joined with one space between neighbours.
pub open spec fn joined(words: Seq<Seq<char>>) -> Seq<char>
    decreases words.len(),
{
    if words.len() == 0 {
        Seq::empty()
    } else if words.len() == 1 {
        words[0]
    } else {
        joined(words.drop_last()) + seq![' '] + words.last()
    }
}

/// The views of a sequence of strings.
pub open spec fn string_views(words: Seq<String>) -> Seq<Seq<char>> {
    words.map_values(|w: String| w@)
}

impl Task {
    pub fn new(text: String) -> (r: Task)
        ensures
            r.text@ == text@,
    {
        Task { text }
    }

    /// The task's text, as shown in a listing.
    pub fn to_string(&self) -> (r: String)
        ensures
            r@ == self.text@,
    {
        self.text.clone()
    }
}

/// Joins the words of a command line into one task text, a single space
/// between each two words.
pub fn join_words(words: &Vec<String>) -> (r: String)
    ensures
        r@ == joined(string_views(words@)),
{
    let n = words.len();
    if n == 0 {
        return String::new();
    }
    let mut r = words[0].clone();
    let mut i: usize = 1;
    assert(string_views(words@).subrange(0, 1) =~= seq![words@[0]@]);
    while i < n
        invariant
            1 <= i <= n,
            n == words.len(),
            r@ == joined(string_views(words@).subrange(0, i as int)),
        decreases n - i,
    {
        let ghost prev = string_views(words@).subrange(0, i as int);
        let ghost next = string_views(words@).subrange(0, i as int + 1);
        assert(next.drop_last() =~= prev);
        r.append(" ");
        proof {
            reveal_strlit(" ");
        }
        r.append(words[i].as_str());
        i = i + 1;
    }
    assert(string_views(words@).subrange(0, n as int) =~= string_views(words@));
    r
}

/// Appends a task made of the joined words at the end of the list.
pub fn add_task(tasks: &mut Vec<Task>, words: &Vec<String>) -> (r: String)
    ensures
        r@ == joined(string_views(words@)),
        texts(final(tasks)@) == texts(old(tasks)@).push(r@),
{
    let text = join_words(words);
    let shown = text.clone();
    tasks.push(Task { text });
    assert(texts(final(tasks)@) =~= texts(old(tasks)@).push(shown@));
    shown
}

/// Why a task could not be removed.
pub enum RemoveError {
    /// No task stands at this 1-based position.
    NoSuchTask(usize),
}

/// Removes the task at a 1-based position; positions 0 and past the end are
/// refused and leave the list as it was.
pub fn remove_task(tasks: &mut Vec<Task>, position: usize) -> (r: Result<Task, RemoveError>)
    ensures
        (position == 0 || position > old(tasks)@.len()) <==> r is Err,
        r matches Err(RemoveError::NoSuchTask(p)) ==> p == position && final(tasks)@ == old(tasks)@,
        r matches Ok(t) ==> {
            &&& t == old(tasks)@[position - 1]
            &&& final(tasks)@ == old(tasks)@.remove(position - 1)
            &&& texts(final(tasks)@) == texts(old(tasks)@).remove(position - 1)
        },
{
    if position == 0 || position > tasks.len() {
        return Err(RemoveError::NoSuchTask(position));
    }
    let t = tasks.remove(position - 1);
    assert(texts(final(tasks)@) =~= texts(old(tasks)@).remove(position - 1));
    Ok(t)
}

} // verus!
