use vstd::prelude::*;

verus! {

/// A static block of text shown centred in a bordered box.
#[derive(Debug)]
pub struct TextBox {
    pub text: String,
}

impl Default for TextBox {
    fn default() -> (r: TextBox)
        ensures
            r.text@ == Seq::<char>::empty(),
    {
        TextBox { text: String::new() }
    }
}

} // verus!
