use vstd::prelude::*;

verus! {

/// The error that every rejected argument produces: the text that a
/// scripting front end reports as a value error.
#[derive(Clone, Debug)]
pub struct ValueError {
    pub message: String,
}

impl View for ValueError {
    type V = Seq<char>;

    open spec fn view(&self) -> Seq<char> {
        self.message@
    }
}

impl ValueError {
    /// An error whose message is `message`.
    pub fn new(message: &str) -> (e: ValueError)
        ensures
            e@ == message@,
    {
        ValueError { message: message.to_owned() }
    }

    /// An error whose message is `name` followed by `suffix`.
    pub fn named(name: &str, suffix: &str) -> (e: ValueError)
        ensures
            e@ == name@ + suffix@,
    {
        let mut message = name.to_owned();
        message.append(suffix);
        ValueError { message }
    }

    /// The message of this error.
    pub fn message(&self) -> (m: &str)
        ensures
            m@ == self@,
    {
        self.message.as_str()
    }
}

} // verus!
