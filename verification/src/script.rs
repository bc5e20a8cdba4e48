//! The scripts that a server runs.

use vstd::prelude::*;

verus! {

/// A predefined script: the name that clients ask for, the user to run as, and
/// the command with its own arguments.
#[derive(Debug)]
pub struct Script {
    pub name: String,
    pub run_as: Option<String>,
    pub command: Vec<String>,
}

/// A script's contents.
pub struct ScriptModel {
    pub name: Seq<char>,
    pub run_as: Option<Seq<char>>,
    pub command: Seq<Seq<char>>,
}

/// An optional text's contents.
pub open spec fn optional_text(text: Option<String>) -> Option<Seq<char>> {
    match text {
        Some(text) => Some(text@),
        None => None,
    }
}

/// The contents of several texts.
pub open spec fn texts(list: Seq<String>) -> Seq<Seq<char>> {
    Seq::new(list.len(), |i: int| list[i]@)
}

impl View for Script {
    type V = ScriptModel;

    open spec fn view(&self) -> ScriptModel {
        ScriptModel {
            name: self.name@,
            run_as: optional_text(self.run_as),
            command: texts(self.command@),
        }
    }
}

/// A copy of several texts.
pub fn copy_texts(list: &Vec<String>) -> (copy: Vec<String>)
    ensures
        texts(copy@) == texts(list@),
{
    let mut copy: Vec<String> = Vec::new();
    let mut i: usize = 0;
    while i < list.len()
        invariant
            i <= list.len(),
            copy@.len() == i,
            forall|j: int| 0 <= j < i ==> (#[trigger] copy@[j])@ == list@[j]@,
        decreases list.len() - i,
    {
        copy.push(list[i].clone());
        i = i + 1;
    }
    assert(texts(copy@) =~= texts(list@));
    copy
}

/// A copy of an optional text.
pub fn copy_optional_text(text: &Option<String>) -> (copy: Option<String>)
    ensures
        optional_text(copy) == optional_text(*text),
{
    match text {
        Some(text) => Some(text.clone()),
        None => None,
    }
}

impl Clone for Script {
    fn clone(&self) -> (copy: Script)
        ensures
            copy@ == self@,
    {
        Script {
            name: self.name.clone(),
            run_as: copy_optional_text(&self.run_as),
            command: copy_texts(&self.command),
        }
    }
}

/// Whether `at` is the first script with this name.
pub open spec fn first_named(scripts: Seq<Script>, name: Seq<char>, at: int) -> bool {
    &&& 0 <= at < scripts.len()
    &&& scripts[at].name@ == name
    &&& forall|i: int| 0 <= i < at ==> (#[trigger] scripts[i]).name@ != name
}

/// The first script with this name.
pub fn find_script(scripts: &Vec<Script>, name: &String) -> (at: Option<usize>)
    ensures
        match at {
            Some(at) => first_named(scripts@, name@, at as int),
            None => forall|i: int| 0 <= i < scripts@.len() ==> (#[trigger] scripts@[i]).name@
                != name@,
        },
{
    let mut i: usize = 0;
    while i < scripts.len()
        invariant
            i <= scripts.len(),
            forall|j: int| 0 <= j < i ==> (#[trigger] scripts@[j]).name@ != name@,
        decreases scripts.len() - i,
    {
        if scripts[i].name == *name {
            return Some(i);
        }
        i = i + 1;
    }
    None
}

} // verus!
