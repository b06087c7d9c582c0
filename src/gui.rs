use vstd::prelude::*;

verus! {

/// Something a screen can draw. Drawing yields the text that the component
/// shows; the caller puts it on the terminal.
pub trait Draw {
    /// The text that drawing the component yields.
    spec fn drawing(&self) -> Seq<char>;

    fn draw(&self) -> (r: String)
        ensures
            r@ == self.drawing(),
    ;
}

/// A screen: a list of components of any kind, drawn in order.
pub struct Screen {
    pub components: Vec<Box<dyn Draw>>,
}

impl Screen {
    /// Draws every component, first to last, and returns what each yielded.
    pub fn run(&self) -> (r: Vec<String>)
        ensures
            r@.len() == self.components@.len(),
            forall|i: int| 0 <= i < r@.len() ==> (#[trigger] r@[i])@ == self.components@[i].drawing(),
    {
        let mut out: Vec<String> = Vec::new();
        let mut i: usize = 0;
        while i < self.components.len()
            invariant
                i <= self.components@.len(),
                out@.len() == i,
                forall|k: int| 0 <= k < i ==> (#[trigger] out@[k])@ == self.components@[k].drawing(),
            decreases self.components@.len() - i,
        {
            let s = self.components[i].draw();
            out.push(s);
            i = i + 1;
        }
        out
    }
}

/// A button with its size and label.
pub struct Button {
    pub width: u32,
    pub height: u32,
    pub label: String,
}

impl Draw for Button {
    open spec fn drawing(&self) -> Seq<char> {
        "draw button"@
    }

    fn draw(&self) -> (r: String)
        ensures
            r@ == self.drawing(),
    {
        "draw button".to_owned()
    }
}

} // verus!
