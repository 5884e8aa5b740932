//! The todo-list model: the items, the text being typed, and the event
//! handler that edits them.

use vstd::prelude::*;

verus! {

/// One entry of the todo list.
#[derive(Clone, Debug)]
pub struct TodoItem {
    pub done: bool,
    pub text: String,
}

/// Everything the todo list reacts to.
#[derive(Clone, Debug)]
pub enum AppEvent {
    NewItem(String),
    AddItem,
    DeleteItem(usize),
    ToggleDone(usize),
}

/// The todo list's whole state: the items and the text of the entry box.
#[derive(Debug)]
pub struct AppData {
    pub todo_items: Vec<TodoItem>,
    pub new_item: String,
}

impl AppData {
    /// Which states an event may be delivered in: deleting or toggling asks
    /// for an existing item.
    pub open spec fn event_enabled(self, event: AppEvent) -> bool {
        match event {
            AppEvent::DeleteItem(index) => index < self.todo_items.len(),
            AppEvent::ToggleDone(index) => index < self.todo_items.len(),
            _ => true,
        }
    }

    /// React to an event:
    /// - `NewItem` replaces the entry box's text;
    /// - `AddItem` appends an undone item with that text, unless it is empty;
    /// - `DeleteItem` removes the item at the index;
    /// - `ToggleDone` flips the done mark of the item at the index.
    pub fn event(&mut self, event: &AppEvent)
        requires
            old(self).event_enabled(*event),
        ensures
            match *event {
                AppEvent::NewItem(text) => {
                    &&& final(self).new_item@ == text@
                    &&& final(self).todo_items@ == old(self).todo_items@
                },
                AppEvent::AddItem => {
                    &&& final(self).new_item == old(self).new_item
                    &&& if old(self).new_item@.len() == 0 {
                        final(self).todo_items@ == old(self).todo_items@
                    } else {
                        &&& final(self).todo_items@.len() == old(self).todo_items@.len() + 1
                        &&& final(self).todo_items@.subrange(
                            0,
                            old(self).todo_items@.len() as int,
                        ) == old(self).todo_items@
                        &&& final(self).todo_items@.last().done == false
                        &&& final(self).todo_items@.last().text@ == old(self).new_item@
                    }
                },
                AppEvent::DeleteItem(index) => {
                    &&& final(self).new_item == old(self).new_item
                    &&& final(self).todo_items@ == old(self).todo_items@.remove(index as int)
                },
                AppEvent::ToggleDone(index) => {
                    let pre = old(self).todo_items@;
                    let post = final(self).todo_items@;
                    &&& final(self).new_item == old(self).new_item
                    &&& post.len() == pre.len()
                    &&& post[index as int].done == !pre[index as int].done
                    &&& post[index as int].text == pre[index as int].text
                    &&& forall|j: int| 0 <= j < pre.len() && j != index ==> post[j] == pre[j]
                },
            },
    {
        match event {
            AppEvent::NewItem(text) => {
                self.new_item = text.clone();
            },
            AppEvent::AddItem => {
                if !self.new_item.as_str().is_empty() {
                    self.todo_items.push(
                        TodoItem { done: false, text: self.new_item.clone() },
                    );
                    proof {
                        assert(self.todo_items@.subrange(
                            0,
                            old(self).todo_items@.len() as int,
                        ) =~= old(self).todo_items@);
                    }
                }
            },
            AppEvent::DeleteItem(index) => {
                self.todo_items.remove(*index);
            },
            AppEvent::ToggleDone(index) => {
                let item = self.todo_items.remove(*index);
                self.todo_items.insert(*index, TodoItem { done: !item.done, text: item.text });
            },
        }
    }
}

} // verus!
