//! The upload form, the form bound both ways to its fields, and the toggle
//! that the nested layout shares with its buttons.
use vstd::prelude::*;
use vstd::string::*;

verus! {

/// The city the select starts on, and returns to on reset.
pub const DEFAULT_CITY: &'static str = "北京";

/// The message the text area starts with.
pub const DEFAULT_MESSAGE: &'static str = "guud";

/// The fields of the upload form.
#[derive(Debug, Clone)]
pub struct UploadForm {
    /// The name taken from the text input at the last submit.
    pub name: String,
    pub msg: String,
    pub city: String,
}

impl UploadForm {
    /// The form before any input: no name, the default message and city.
    pub fn new() -> (r: UploadForm)
        ensures
            r.name@.len() == 0,
            r.msg@ == DEFAULT_MESSAGE@,
            r.city@ == DEFAULT_CITY@,
    {
        UploadForm {
            name: String::new(),
            msg: String::from_str(DEFAULT_MESSAGE),
            city: String::from_str(DEFAULT_CITY),
        }
    }

    /// A submit of the form: the name becomes what the text input holds.
    pub fn submit(&mut self, input: String)
        ensures
            final(self).name@ == input@,
            final(self).msg@ == old(self).msg@,
            final(self).city@ == old(self).city@,
    {
        self.name = input;
    }

    /// The reset button: the city returns to the default one.
    pub fn reset_city(&mut self)
        ensures
            final(self).name@ == old(self).name@,
            final(self).msg@ == old(self).msg@,
            final(self).city@ == DEFAULT_CITY@,
    {
        self.city = String::from_str(DEFAULT_CITY);
    }

    /// Whether the submitted name is shown: only once it is not empty.
    pub fn shows_name(&self) -> (r: bool)
        ensures
            r == (self.name@.len() > 0),
    {
        !self.name.as_str().is_empty()
    }
}

/// The cities the select offers, in order.
pub fn city_options() -> (r: Vec<String>)
    ensures
        r@.len() == 3,
        r@[0]@ == "北京"@,
        r@[1]@ == "上海"@,
        r@[2]@ == "广州"@,
{
    vec![String::from_str("北京"), String::from_str("上海"), String::from_str("广州")]
}

/// The fields of the form whose inputs are bound both ways.
#[derive(Debug, Clone)]
pub struct BoundForm {
    pub name: String,
    pub email: String,
    pub spam_me: bool,
}

impl BoundForm {
    /// The form before any input: empty name and email, the box ticked.
    pub fn new() -> (r: BoundForm)
        ensures
            r.name@.len() == 0,
            r.email@.len() == 0,
            r.spam_me,
    {
        BoundForm { name: String::new(), email: String::new(), spam_me: true }
    }

    /// Whether the note on bonus content is shown: while the box is ticked.
    pub fn shows_bonus(&self) -> (r: bool)
        ensures
            r == self.spam_me,
    {
        self.spam_me
    }
}

/// The flag that the nested layout shows and its buttons flip.
#[derive(Debug, Clone, Copy, PartialEq, Eq)]
pub struct Toggle {
    pub on: bool,
}

impl Toggle {
    /// The flag before any press: off.
    pub fn new() -> (r: Toggle)
        ensures
            !r.on,
    {
        Toggle { on: false }
    }

    /// One press of either button: the flag turns over.
    pub fn flip(&mut self)
        ensures
            final(self).on == !old(self).on,
    {
        self.on = !self.on;
    }
}

} // verus!
