use vstd::prelude::*;

verus! {

/// A render target: one bar instance, addressed by its name.
#[derive(Debug)]
pub struct SketchyBar {
    bar_name: String,
}

impl View for SketchyBar {
    type V = Seq<char>;

    /// A bar is its name.
    closed spec fn view(&self) -> Seq<char> {
        self.bar_name@
    }
}

impl Clone for SketchyBar {
    fn clone(&self) -> (copy: Self)
        ensures
            copy@ == self@,
    {
        SketchyBar { bar_name: self.bar_name.clone() }
    }
}

/// One command for one render target.
#[derive(Debug)]
pub struct Dispatch {
    pub bar_name: String,
    pub command: String,
}

impl View for Dispatch {
    type V = (Seq<char>, Seq<char>);

    /// The bar's name and the command.
    open spec fn view(&self) -> (Seq<char>, Seq<char>) {
        (self.bar_name@, self.command@)
    }
}

/// The records of a sequence of dispatches, in order.
pub open spec fn dispatch_records(dispatches: Seq<Dispatch>) -> Seq<(Seq<char>, Seq<char>)> {
    dispatches.map_values(|d: Dispatch| d@)
}

/// The dispatches that send each command of a list to one bar, in order.
pub open spec fn addressed(bar: Seq<char>, commands: Seq<Seq<char>>) -> Seq<(Seq<char>, Seq<char>)> {
    Seq::new(commands.len(), |i: int| (bar, commands[i]))
}

/// A command that a render target did not take.
#[derive(Debug)]
pub struct RenderError {
    pub bar_name: String,
    pub detail: String,
}

/// The name of the bar of the built-in display, and of every new handle.
pub open spec fn default_bar_name() -> Seq<char> {
    "sketchybar"@
}

/// The characters of each key and value of a list of properties.
pub open spec fn property_texts(properties: Seq<(&str, &str)>) -> Seq<(Seq<char>, Seq<char>)> {
    properties.map_values(|p: (&str, &str)| (p.0@, p.1@))
}

/// The characters of each word of a list.
pub open spec fn word_texts(words: Seq<&str>) -> Seq<Seq<char>> {
    words.map_values(|w: &str| w@)
}

/// A list of properties as command text: for each, a space, the key, `=` and
/// the value.
pub open spec fn assignments(properties: Seq<(Seq<char>, Seq<char>)>) -> Seq<char>
    decreases properties.len(),
{
    if properties.len() == 0 {
        Seq::empty()
    } else {
        assignments(properties.drop_last()) + " "@ + properties.last().0 + "="@
            + properties.last().1
    }
}

/// A list of words as command text: each after a space.
pub open spec fn spaced(words: Seq<Seq<char>>) -> Seq<char>
    decreases words.len(),
{
    if words.len() == 0 {
        Seq::empty()
    } else {
        spaced(words.drop_last()) + " "@ + words.last()
    }
}

/// The command that sets properties of the bar.
pub open spec fn bar_command(properties: Seq<(Seq<char>, Seq<char>)>) -> Seq<char> {
    "--bar"@ + assignments(properties)
}

/// The command that sets the defaults of new items.
pub open spec fn default_command(properties: Seq<(Seq<char>, Seq<char>)>) -> Seq<char> {
    "--default"@ + assignments(properties)
}

/// The command that adds an item.
pub open spec fn add_command(item_type: Seq<char>, name: Seq<char>, position: Seq<char>) -> Seq<
    char,
> {
    "--add "@ + item_type + " "@ + name + " "@ + position
}

/// The command that sets properties of an item.
pub open spec fn set_command(item_name: Seq<char>, properties: Seq<(Seq<char>, Seq<char>)>) -> Seq<
    char,
> {
    "--set "@ + item_name + assignments(properties)
}

/// The command that subscribes an item to events.
pub open spec fn subscribe_command(item_name: Seq<char>, events: Seq<Seq<char>>) -> Seq<char> {
    "--subscribe "@ + item_name + spaced(events)
}

/// The command that switches hot reloading.
pub open spec fn hotload_command(enabled: bool) -> Seq<char> {
    "--hotload "@ + crate::text::bool_word(enabled)
}

/// The command that removes an item.
pub open spec fn remove_command(item_name: Seq<char>) -> Seq<char> {
    "--remove "@ + item_name
}

/// The command that asks the bar about itself or one of its items.
pub open spec fn query_command(query_type: Seq<char>, item_name: Option<Seq<char>>) -> Seq<char> {
    match item_name {
        Some(name) => "--query "@ + query_type + " "@ + name,
        None => "--query "@ + query_type,
    }
}

/// The command that triggers an event.
pub open spec fn trigger_command(event_name: Seq<char>) -> Seq<char> {
    "--trigger "@ + event_name
}

/// What to report of a command that a bar did not take.
pub open spec fn failure_text(bar_name: Seq<char>, detail: Seq<char>) -> Seq<char> {
    "SketchyBar error for '"@ + bar_name + "': "@ + detail
}

fn append_assignments(command: &mut String, properties: &[(&str, &str)])
    ensures
        final(command)@ == old(command)@ + assignments(property_texts(properties@)),
{
    let ghost all = property_texts(properties@);
    let mut i: usize = 0;
    assert(all.take(0) =~= Seq::empty());
    assert(command@ =~= old(command)@ + assignments(all.take(0)));
    while i < properties.len()
        invariant
            all == property_texts(properties@),
            0 <= i <= properties.len(),
            command@ == old(command)@ + assignments(all.take(i as int)),
        decreases properties.len() - i,
    {
        let (key, value) = properties[i];
        proof {
            assert(all.take(i + 1).drop_last() =~= all.take(i as int));
            assert(all.take(i + 1).last() == (key@, value@));
        }
        let ghost before = command@;
        command.append(" ");
        command.append(key);
        command.append("=");
        command.append(value);
        assert(command@ =~= old(command)@ + assignments(all.take(i + 1)));
        i += 1;
    }
    assert(all.take(i as int) =~= all);
}

fn append_spaced(command: &mut String, words: &[&str])
    ensures
        final(command)@ == old(command)@ + spaced(word_texts(words@)),
{
    let ghost all = word_texts(words@);
    let mut i: usize = 0;
    assert(all.take(0) =~= Seq::empty());
    assert(command@ =~= old(command)@ + spaced(all.take(0)));
    while i < words.len()
        invariant
            all == word_texts(words@),
            0 <= i <= words.len(),
            command@ == old(command)@ + spaced(all.take(i as int)),
        decreases words.len() - i,
    {
        let word = words[i];
        proof {
            assert(all.take(i + 1).drop_last() =~= all.take(i as int));
            assert(all.take(i + 1).last() == word@);
        }
        command.append(" ");
        command.append(word);
        assert(command@ =~= old(command)@ + spaced(all.take(i + 1)));
        i += 1;
    }
    assert(all.take(i as int) =~= all);
}

impl SketchyBar {
    /// A handle on the bar of the default name.
    pub fn new() -> (bar: Self)
        ensures
            bar@ == default_bar_name(),
    {
        SketchyBar { bar_name: String::from_str("sketchybar") }
    }

    pub fn set_bar_name(&mut self, name: &str)
        ensures
            final(self)@ == name@,
    {
        self.bar_name = String::from_str(name);
    }

    pub fn get_bar_name(&self) -> (name: &str)
        ensures
            name@ == self@,
    {
        self.bar_name.as_str()
    }

    /// Addresses a raw command to this bar.
    pub fn message(&self, msg: &str) -> (dispatch: Dispatch)
        ensures
            dispatch@ == (self@, msg@),
    {
        Dispatch { bar_name: self.bar_name.clone(), command: String::from_str(msg) }
    }

    /// What to report when this bar did not take a command.
    pub fn failure(&self, detail: &str) -> (error: RenderError)
        ensures
            error.bar_name@ == self@,
            error.detail@ == detail@,
    {
        RenderError { bar_name: self.bar_name.clone(), detail: String::from_str(detail) }
    }

    /// Sets properties of the bar.
    pub fn bar(&self, properties: &[(&str, &str)]) -> (dispatch: Dispatch)
        ensures
            dispatch@ == (self@, bar_command(property_texts(properties@))),
    {
        let mut command = String::from_str("--bar");
        append_assignments(&mut command, properties);
        self.message(command.as_str())
    }

    /// Sets the defaults of new items.
    pub fn default(&self, properties: &[(&str, &str)]) -> (dispatch: Dispatch)
        ensures
            dispatch@ == (self@, default_command(property_texts(properties@))),
    {
        let mut command = String::from_str("--default");
        append_assignments(&mut command, properties);
        self.message(command.as_str())
    }

    /// Adds an item to the bar.
    pub fn add(&self, item_type: &str, name: &str, position: &str) -> (dispatch: Dispatch)
        ensures
            dispatch@ == (self@, add_command(item_type@, name@, position@)),
    {
        let mut command = String::from_str("--add ");
        command.append(item_type);
        command.append(" ");
        command.append(name);
        command.append(" ");
        command.append(position);
        self.message(command.as_str())
    }

    /// Sets properties of an item.
    pub fn set(&self, item_name: &str, properties: &[(&str, &str)]) -> (dispatch: Dispatch)
        ensures
            dispatch@ == (self@, set_command(item_name@, property_texts(properties@))),
    {
        let mut command = String::from_str("--set ");
        command.append(item_name);
        append_assignments(&mut command, properties);
        self.message(command.as_str())
    }

    /// Subscribes an item to events.
    pub fn subscribe(&self, item_name: &str, events: &[&str]) -> (dispatch: Dispatch)
        ensures
            dispatch@ == (self@, subscribe_command(item_name@, word_texts(events@))),
    {
        let mut command = String::from_str("--subscribe ");
        command.append(item_name);
        append_spaced(&mut command, events);
        self.message(command.as_str())
    }

    /// Switches hot reloading on or off.
    pub fn hotload(&self, enabled: bool) -> (dispatch: Dispatch)
        ensures
            dispatch@ == (self@, hotload_command(enabled)),
    {
        let mut command = String::from_str("--hotload ");
        command.append(crate::text::bool_string(enabled).as_str());
        self.message(command.as_str())
    }

    /// Removes an item from the bar.
    pub fn remove(&self, item_name: &str) -> (dispatch: Dispatch)
        ensures
            dispatch@ == (self@, remove_command(item_name@)),
    {
        let mut command = String::from_str("--remove ");
        command.append(item_name);
        self.message(command.as_str())
    }

    /// Asks the bar about itself or one of its items.
    pub fn query(&self, query_type: &str, item_name: Option<&str>) -> (dispatch: Dispatch)
        ensures
            dispatch@ == (
                self@,
                query_command(
                    query_type@,
                    match item_name {
                        Some(name) => Some(name@),
                        None => None,
                    },
                ),
            ),
    {
        let mut command = String::from_str("--query ");
        command.append(query_type);
        match item_name {
            Some(name) => {
                command.append(" ");
                command.append(name);
            },
            None => {},
        }
        self.message(command.as_str())
    }

    /// Triggers an event.
    pub fn trigger(&self, event_name: &str) -> (dispatch: Dispatch)
        ensures
            dispatch@ == (self@, trigger_command(event_name@)),
    {
        let mut command = String::from_str("--trigger ");
        command.append(event_name);
        self.message(command.as_str())
    }

    /// Forces a redraw of the bar.
    pub fn update(&self) -> (dispatch: Dispatch)
        ensures
            dispatch@ == (self@, "--update"@),
    {
        self.message("--update")
    }

    /// Reloads the bar's configuration.
    pub fn reload(&self) -> (dispatch: Dispatch)
        ensures
            dispatch@ == (self@, "--reload"@),
    {
        self.message("--reload")
    }
}

impl RenderError {
    /// The text of the error.
    pub fn describe(&self) -> (text: String)
        ensures
            text@ == failure_text(self.bar_name@, self.detail@),
    {
        let mut text = String::from_str("SketchyBar error for '");
        text.append(self.bar_name.as_str());
        text.append("': ");
        text.append(self.detail.as_str());
        text
    }
}

} // verus!
