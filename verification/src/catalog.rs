//! The catalog: a fixed, immutable list of named items with integer prices.

use vstd::prelude::*;

verus! {

/// One purchasable item: a name and its integer price.
pub struct Pizza {
    pub name: String,
    pub price: i32,
}

impl View for Pizza {
    type V = (Seq<char>, int);

    open spec fn view(&self) -> (Seq<char>, int) {
        (self.name@, self.price as int)
    }
}

/// The fixed catalog contents, in order.
pub open spec fn catalog_spec() -> Seq<(Seq<char>, int)> {
    seq![("veggie"@, 10 as int), ("regina"@, 12 as int), ("deluxe"@, 14 as int)]
}

/// Names are pairwise distinct.
pub open spec fn names_unique(items: Seq<(Seq<char>, int)>) -> bool {
    forall|i: int, j: int| 0 <= i < j < items.len() ==> items[i].0 != items[j].0
}

/// The catalog: an ordered list of items, constructed once and never mutated.
pub struct PizzaList {
    pub pizzas: Vec<Pizza>,
}

impl View for PizzaList {
    type V = Seq<(Seq<char>, int)>;

    open spec fn view(&self) -> Seq<(Seq<char>, int)> {
        Seq::new(self.pizzas@.len(), |i: int| self.pizzas@[i]@)
    }
}

impl PizzaList {
    /// Builds the fixed three-item catalog, in order.
    pub fn new() -> (r: PizzaList)
        ensures
            r@ == catalog_spec(),
    {
        let veggie = Pizza { name: String::from_str("veggie"), price: 10 };
        let regina = Pizza { name: String::from_str("regina"), price: 12 };
        let deluxe = Pizza { name: String::from_str("deluxe"), price: 14 };
        let list = PizzaList { pizzas: vec![veggie, regina, deluxe] };
        proof {
            assert(list@ =~= catalog_spec());
        }
        list
    }
}

/// The first item whose name equals `name`, if any.
pub open spec fn find_item(items: Seq<(Seq<char>, int)>, name: Seq<char>) -> Option<
    (Seq<char>, int),
>
    decreases items.len(),
{
    if items.len() == 0 {
        None
    } else if items[0].0 == name {
        Some(items[0])
    } else {
        find_item(items.drop_first(), name)
    }
}

/// A prefix without a match does not change the first item found.
proof fn lemma_find_item_skip(items: Seq<(Seq<char>, int)>, name: Seq<char>, i: int)
    requires
        0 <= i <= items.len(),
        forall|j: int| 0 <= j < i ==> items[j].0 != name,
    ensures
        find_item(items, name) == find_item(items.skip(i), name),
    decreases i,
{
    if i > 0 {
        lemma_find_item_skip(items, name, i - 1);
        assert(items.skip(i - 1)[0] == items[i - 1]);
        assert(items.skip(i - 1).drop_first() =~= items.skip(i));
    } else {
        assert(items.skip(0) =~= items);
    }
}

/// Where the names are unique, the item carrying a name is the one found.
pub proof fn lemma_find_item_found(items: Seq<(Seq<char>, int)>, name: Seq<char>, i: int)
    requires
        names_unique(items),
        0 <= i < items.len(),
        items[i].0 == name,
    ensures
        find_item(items, name) == Some(items[i]),
    decreases items.len(),
{
    if items[0].0 == name {
        assert(i == 0);
    } else {
        assert(names_unique(items.drop_first()));
        lemma_find_item_found(items.drop_first(), name, i - 1);
    }
}

/// A name no item carries is never found.
pub proof fn lemma_find_item_none(items: Seq<(Seq<char>, int)>, name: Seq<char>)
    requires
        forall|j: int| 0 <= j < items.len() ==> items[j].0 != name,
    ensures
        find_item(items, name) is None,
{
    lemma_find_item_skip(items, name, items.len() as int);
    assert(items.skip(items.len() as int) =~= Seq::<(Seq<char>, int)>::empty());
}

impl PizzaList {
    /// Scans the catalog in order for the first item named `name`.
    pub fn find(&self, name: &String) -> (r: Option<&Pizza>)
        ensures
            match r {
                Some(p) => find_item(self@, name@) == Some(p@),
                None => find_item(self@, name@) is None,
            },
    {
        let n: usize = self.pizzas.len();
        let mut i: usize = 0;
        while i < n
            invariant
                n == self.pizzas.len(),
                0 <= i <= n,
                forall|j: int| 0 <= j < i ==> self@[j].0 != name@,
            decreases n - i,
        {
            if self.pizzas[i].name == *name {
                proof {
                    lemma_find_item_skip(self@, name@, i as int);
                    assert(self@.skip(i as int)[0] == self@[i as int]);
                }
                return Some(&self.pizzas[i]);
            }
            i += 1;
        }
        proof {
            lemma_find_item_skip(self@, name@, n as int);
            assert(self@.skip(n as int) =~= Seq::<(Seq<char>, int)>::empty());
        }
        None
    }
}

/// The catalog's names are pairwise distinct.
pub proof fn lemma_catalog_names_unique()
    ensures
        names_unique(catalog_spec()),
{
    reveal_strlit("veggie");
    reveal_strlit("regina");
    reveal_strlit("deluxe");
    assert(("veggie"@)[0] == 'v' && ("regina"@)[0] == 'r' && ("deluxe"@)[0] == 'd');
    assert(catalog_spec()[0].0 != catalog_spec()[1].0);
    assert(catalog_spec()[0].0 != catalog_spec()[2].0);
    assert(catalog_spec()[1].0 != catalog_spec()[2].0);
}

} // verus!
