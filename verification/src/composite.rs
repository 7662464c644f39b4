//! Composite: objects composed into trees, where a client treats a single
//! object and a composition of objects alike.
//!
//! A `Graphic` prints itself. An `Ellipse` is a leaf. A `CompositeGraphic`
//! holds graphics, leaves and composites alike, and prints what they print,
//! in the order in which they were added.

use vstd::prelude::*;
use vstd::string::*;

verus! {

/// The component.
pub trait Graphic {
    /// What the graphic prints.
    spec fn rendering(&self) -> Seq<char>;

    /// Prints the graphic.
    fn print(&self) -> (r: String)
        ensures
            r@ == self.rendering(),
    ;
}

/// The pieces of text written one after the other.
pub open spec fn joined(parts: Seq<Seq<char>>) -> Seq<char>
    decreases parts.len(),
{
    if parts.len() == 0 {
        Seq::empty()
    } else {
        joined(parts.drop_last()) + parts.last()
    }
}

/// Joining two lists of pieces one after the other joins their texts.
pub proof fn lemma_joined_concat(a: Seq<Seq<char>>, b: Seq<Seq<char>>)
    ensures
        joined(a + b) == joined(a) + joined(b),
    decreases b.len(),
{
    if b.len() == 0 {
        assert(a + b =~= a);
        assert(joined(a) + joined(b) =~= joined(a));
    } else {
        lemma_joined_concat(a, b.drop_last());
        assert((a + b).drop_last() =~= a + b.drop_last());
        assert((a + b).last() == b.last());
        assert(joined(a + b) =~= joined(a) + joined(b));
    }
}

/// Appends a graphic to a list of children. The child comes first, so that
/// its type is taken from the child and a graphic behind the interface is
/// handed on as it is.
fn attach<T>(child: T, children: &mut Vec<T>)
    ensures
        final(children)@ == old(children)@.push(child),
{
    children.push(child);
}

/// The composite.
pub struct CompositeGraphic {
    children: Vec<Box<dyn Graphic>>,
}

impl CompositeGraphic {
    /// What each child prints, in the order in which the children were
    /// added.
    pub closed spec fn parts(&self) -> Seq<Seq<char>> {
        self.children@.map_values(|g: Box<dyn Graphic>| g.rendering())
    }

    /// A composite without children.
    pub fn new() -> (r: Self)
        ensures
            r.parts() == Seq::<Seq<char>>::empty(),
    {
        let r = CompositeGraphic { children: Vec::new() };
        assert(r.parts() =~= Seq::<Seq<char>>::empty());
        r
    }

    /// Adds a component.
    pub fn add(&mut self, graphic: Box<dyn Graphic>)
        ensures
            final(self).parts() == old(self).parts().push(graphic.rendering()),
    {
        attach(graphic, &mut self.children);
        assert(self.parts() =~= old(self).parts().push(graphic.rendering()));
    }

    /// Removes the component added last. A composite without children stays
    /// as it is.
    pub fn remove(&mut self)
        ensures
            final(self).parts() == (if old(self).parts().len() > 0 {
                old(self).parts().drop_last()
            } else {
                old(self).parts()
            }),
    {
        self.children.pop();
        assert(self.parts() =~= (if old(self).parts().len() > 0 {
            old(self).parts().drop_last()
        } else {
            old(self).parts()
        }));
    }
}

impl Graphic for CompositeGraphic {
    open spec fn rendering(&self) -> Seq<char> {
        joined(self.parts())
    }

    fn print(&self) -> (r: String) {
        let mut result = String::new();
        let mut i: usize = 0;
        while i < self.children.len()
            invariant
                i <= self.children.len(),
                result@ == joined(self.parts().take(i as int)),
            decreases self.children.len() - i,
        {
            let part = self.children[i].print();
            result.append(part.as_str());
            proof {
                let upto = self.parts().take(i + 1);
                assert(upto.drop_last() =~= self.parts().take(i as int));
                assert(upto.last() == part@);
            }
            i += 1;
        }
        assert(self.parts().take(i as int) =~= self.parts());
        result
    }
}

/// A leaf.
pub struct Ellipse;

impl Graphic for Ellipse {
    open spec fn rendering(&self) -> Seq<char> {
        "Ellipse"@
    }

    fn print(&self) -> (r: String) {
        String::from_str("Ellipse")
    }
}

} // verus!
