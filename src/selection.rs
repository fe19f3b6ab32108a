//! The list of themes, which of them is highlighted, and what each key does.
use vstd::prelude::*;

verus! {

/// One theme file: the name shown in the list and the path it is read from.
#[derive(Clone, Debug)]
pub struct ListItem {
    pub name: String,
    pub path: String,
}

/// The themes in list order and the highlighted one, if any.
pub struct StatefulList {
    pub selected: Option<usize>,
    pub alacritty_cfg_file: String,
    pub items: Vec<ListItem>,
    pub last_selected: Option<usize>,
}

/// Where `next` moves the highlight in a list of `n` themes.
pub open spec fn next_index(selected: Option<usize>, last: Option<usize>, n: nat) -> nat {
    match selected {
        Some(i) => if i + 1 >= n { 0 } else { (i + 1) as nat },
        None => match last {
            Some(l) => l as nat,
            None => 0,
        },
    }
}

/// Where `previous` moves the highlight in a list of `n` themes.
pub open spec fn previous_index(selected: Option<usize>, last: Option<usize>, n: nat) -> nat {
    match selected {
        Some(i) => if i == 0 { (n - 1) as nat } else { (i - 1) as nat },
        None => match last {
            Some(l) => l as nat,
            None => 0,
        },
    }
}

pub open spec fn index_ok(i: Option<usize>, n: nat) -> bool {
    match i {
        Some(k) => k < n,
        None => true,
    }
}

impl StatefulList {
    /// The list is never empty and every remembered index lies inside it.
    pub open spec fn wf(&self) -> bool {
        &&& self.items@.len() > 0
        &&& index_ok(self.selected, self.items@.len())
        &&& index_ok(self.last_selected, self.items@.len())
    }

    /// A list with nothing highlighted yet.
    pub fn with_items(items: Vec<ListItem>, alacritty_cfg_file: String) -> (r: StatefulList)
        requires
            items@.len() > 0,
        ensures
            r.wf(),
            r.items@ == items@,
            r.alacritty_cfg_file == alacritty_cfg_file,
            r.selected.is_none(),
            r.last_selected.is_none(),
    {
        StatefulList { selected: None, alacritty_cfg_file, items, last_selected: None }
    }

    /// Highlights the following theme, wrapping from the last to the first.
    pub fn next(&mut self)
        requires
            old(self).wf(),
        ensures
            final(self).wf(),
            final(self).selected == Some(
                next_index(old(self).selected, old(self).last_selected, old(self).items@.len()) as usize,
            ),
            final(self).items == old(self).items,
            final(self).last_selected == old(self).last_selected,
            final(self).alacritty_cfg_file == old(self).alacritty_cfg_file,
    {
        let i = match self.selected {
            Some(i) => {
                if i >= self.items.len() - 1 {
                    0
                } else {
                    i + 1
                }
            },
            None => match self.last_selected {
                Some(l) => l,
                None => 0,
            },
        };
        self.selected = Some(i);
    }

    /// Highlights the preceding theme, wrapping from the first to the last.
    pub fn previous(&mut self)
        requires
            old(self).wf(),
        ensures
            final(self).wf(),
            final(self).selected == Some(
                previous_index(old(self).selected, old(self).last_selected, old(self).items@.len()) as usize,
            ),
            final(self).items == old(self).items,
            final(self).last_selected == old(self).last_selected,
            final(self).alacritty_cfg_file == old(self).alacritty_cfg_file,
    {
        let i = match self.selected {
            Some(i) => {
                if i == 0 {
                    self.items.len() - 1
                } else {
                    i - 1
                }
            },
            None => match self.last_selected {
                Some(l) => l,
                None => 0,
            },
        };
        self.selected = Some(i);
    }
}

/// `next` on the last theme comes back to the first, and `previous` on the
/// first goes round to the last.
pub proof fn lemma_navigation_wraps(n: nat, last: Option<usize>)
    requires
        0 < n <= usize::MAX,
    ensures
        next_index(Some((n - 1) as usize), last, n) == 0,
        previous_index(Some(0), last, n) == n - 1,
        n > 1 ==> next_index(Some(0), last, n) == 1,
{
}

/// A key as the picker tells keys apart.
#[derive(Clone, Copy, Debug, PartialEq, Eq, Structural)]
pub enum Key {
    Char(char),
    Up,
    Down,
    Esc,
    Other,
}

/// What the loop around the picker is to do after a key.
#[derive(Clone, Debug)]
pub enum Action {
    /// Leave the picker.
    Quit,
    /// Draw again; nothing else to do.
    Redraw,
    /// Apply the theme read from this path, then draw again.
    Apply(String),
}

pub open spec fn is_quit(k: Key) -> bool {
    k == Key::Char('q') || k == Key::Esc
}

pub open spec fn is_next(k: Key) -> bool {
    k == Key::Char('j') || k == Key::Down
}

pub open spec fn is_previous(k: Key) -> bool {
    k == Key::Char('k') || k == Key::Up
}

/// The picker: the theme list and its highlight.
pub struct App {
    pub items: StatefulList,
}

impl App {
    pub open spec fn wf(&self) -> bool {
        self.items.wf()
    }

    pub fn new(items: Vec<ListItem>, alacritty_cfg_file: String) -> (r: App)
        requires
            items@.len() > 0,
        ensures
            r.wf(),
            r.items.items@ == items@,
            r.items.alacritty_cfg_file == alacritty_cfg_file,
            r.items.selected.is_none(),
    {
        App { items: StatefulList::with_items(items, alacritty_cfg_file) }
    }

    /// Highlights the first theme, whatever was highlighted.
    pub fn go_top(&mut self)
        requires
            old(self).wf(),
        ensures
            final(self).wf(),
            final(self).items.selected == Some(0usize),
            final(self).items.items == old(self).items.items,
            final(self).items.last_selected == old(self).items.last_selected,
            final(self).items.alacritty_cfg_file == old(self).items.alacritty_cfg_file,
    {
        self.items.selected = Some(0);
    }

    /// Highlights the last theme, whatever was highlighted.
    pub fn go_bottom(&mut self)
        requires
            old(self).wf(),
        ensures
            final(self).wf(),
            final(self).items.selected == Some((old(self).items.items@.len() - 1) as usize),
            final(self).items.items == old(self).items.items,
            final(self).items.last_selected == old(self).items.last_selected,
            final(self).items.alacritty_cfg_file == old(self).items.alacritty_cfg_file,
    {
        self.items.selected = Some(self.items.items.len() - 1);
    }

    /// The path of the highlighted theme, which "apply" merges into the
    /// configuration; none while nothing is highlighted.
    pub fn apply_theme(&self) -> (r: Option<String>)
        requires
            self.wf(),
        ensures
            match self.items.selected {
                Some(i) => r.is_some() && r.unwrap()@ == self.items.items@[i as int].path@,
                None => r.is_none(),
            },
    {
        match self.items.selected {
            Some(i) => Some(self.items.items[i].path.clone()),
            None => None,
        }
    }

    /// The theme whose palette is shown: the highlighted one, else the first.
    pub fn info_index(&self) -> (r: usize)
        requires
            self.wf(),
        ensures
            r < self.items.items@.len(),
            r == match self.items.selected {
                Some(i) => i,
                None => 0,
            },
    {
        match self.items.selected {
            Some(i) => i,
            None => 0,
        }
    }

    /// Reacts to one key press: `q` or escape quits, `j` or down moves on,
    /// `k` or up moves back, `g` and `G` go to the top and the bottom, `a`
    /// applies the highlighted theme; any other key changes nothing.
    pub fn handle_key(&mut self, key: Key) -> (r: Action)
        requires
            old(self).wf(),
        ensures
            final(self).wf(),
            final(self).items.items == old(self).items.items,
            final(self).items.last_selected == old(self).items.last_selected,
            final(self).items.alacritty_cfg_file == old(self).items.alacritty_cfg_file,
            is_quit(key) ==> r is Quit && final(self).items.selected == old(self).items.selected,
            is_next(key) ==> r is Redraw && final(self).items.selected == Some(
                next_index(old(self).items.selected, old(self).items.last_selected, old(self).items.items@.len()) as usize,
            ),
            is_previous(key) ==> r is Redraw && final(self).items.selected == Some(
                previous_index(old(self).items.selected, old(self).items.last_selected, old(self).items.items@.len()) as usize,
            ),
            key == Key::Char('g') ==> r is Redraw && final(self).items.selected == Some(0usize),
            key == Key::Char('G') ==> r is Redraw && final(self).items.selected == Some(
                (old(self).items.items@.len() - 1) as usize,
            ),
            key == Key::Char('a') ==> final(self).items.selected == old(self).items.selected && match old(self).items.selected {
                Some(i) => r is Apply && r->Apply_0@ == old(self).items.items@[i as int].path@,
                None => r is Redraw,
            },
            !is_quit(key) && !is_next(key) && !is_previous(key) && key != Key::Char('g') && key != Key::Char('G')
                && key != Key::Char('a') ==> r is Redraw && final(self).items.selected == old(self).items.selected,
    {
        match key {
            Key::Char('q') | Key::Esc => Action::Quit,
            Key::Char('j') | Key::Down => {
                self.items.next();
                Action::Redraw
            },
            Key::Char('k') | Key::Up => {
                self.items.previous();
                Action::Redraw
            },
            Key::Char('g') => {
                self.go_top();
                Action::Redraw
            },
            Key::Char('G') => {
                self.go_bottom();
                Action::Redraw
            },
            Key::Char('a') => match self.apply_theme() {
                Some(p) => Action::Apply(p),
                None => Action::Redraw,
            },
            _ => Action::Redraw,
        }
    }
}

} // verus!
