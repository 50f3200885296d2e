//! The shop's catalogue as values: products, their categories, and the
//! changes that can be asked of a product.

use vstd::prelude::*;

verus! {

/// A product that is about to be stored.
#[derive(Debug)]
pub struct ProductInsert {
    /// The name of the product.
    pub name: String,
    /// A description of the product.
    pub description: String,
    /// Whether the product is to be listed.
    pub listed: bool,
    /// The price of the product in pennies.
    pub price: u32,
}

/// The mathematical content of a [`ProductInsert`].
pub struct ProductInsertView {
    pub name: Seq<char>,
    pub description: Seq<char>,
    pub listed: bool,
    pub price: u32,
}

impl View for ProductInsert {
    type V = ProductInsertView;

    open spec fn view(&self) -> ProductInsertView {
        ProductInsertView {
            name: self.name@,
            description: self.description@,
            listed: self.listed,
            price: self.price,
        }
    }
}

impl ProductInsert {
    /// A product with the given name, description, listing status and price
    /// in pennies.
    pub fn new(name: &str, description: &str, listed: bool, price: u32) -> (product: ProductInsert)
        ensures
            product@ == (ProductInsertView {
                name: name@,
                description: description@,
                listed,
                price,
            }),
    {
        ProductInsert { name: name.to_owned(), description: description.to_owned(), listed, price }
    }

    /// Whether the product is to be listed.
    pub fn is_listed(&self) -> (listed: bool)
        ensures
            listed == self@.listed,
    {
        self.listed
    }

    /// The price of the product in pennies.
    pub fn price(&self) -> (price: u32)
        ensures
            price == self@.price,
    {
        self.price
    }

    /// The name of the product.
    pub fn name(&self) -> (name: &str)
        ensures
            name@ == self@.name,
    {
        self.name.as_str()
    }

    /// The description of the product.
    pub fn description(&self) -> (description: &str)
        ensures
            description@ == self@.description,
    {
        self.description.as_str()
    }
}

/// A stored product.
#[derive(Debug)]
pub struct Product {
    /// The product's primary key.
    pub id: u32,
    /// The name of the product.
    pub name: String,
    /// A description of the product.
    pub description: String,
    /// Whether the product is listed.
    pub listed: bool,
    /// The price of the product in pennies.
    pub price: u32,
    /// The paths of the product's images.
    pub images: Vec<String>,
}

/// The mathematical content of a [`Product`].
pub struct ProductView {
    pub id: u32,
    pub name: Seq<char>,
    pub description: Seq<char>,
    pub listed: bool,
    pub price: u32,
    pub images: Seq<Seq<char>>,
}

impl View for Product {
    type V = ProductView;

    open spec fn view(&self) -> ProductView {
        ProductView {
            id: self.id,
            name: self.name@,
            description: self.description@,
            listed: self.listed,
            price: self.price,
            images: self.images.deep_view(),
        }
    }
}

impl Product {
    /// The product of a stored row. The store keeps identifiers and prices
    /// as signed 64-bit numbers; a row whose identifier or price is not a
    /// 32-bit unsigned number is no product.
    pub fn from_row(
        id: i64,
        name: String,
        description: String,
        listed: bool,
        price: i64,
        images: Vec<String>,
    ) -> (product: Option<Product>)
        ensures
            product is Some <==> 0 <= id <= u32::MAX && 0 <= price <= u32::MAX,
            product matches Some(p) ==> p@ == (ProductView {
                id: id as u32,
                name: name@,
                description: description@,
                listed,
                price: price as u32,
                images: images.deep_view(),
            }),
    {
        if id < 0 || id > 4294967295 || price < 0 || price > 4294967295 {
            None
        } else {
            Some(Product { id: id as u32, name, description, listed, price: price as u32, images })
        }
    }

    /// Sets the product as listed.
    pub fn list(&mut self)
        ensures
            final(self)@ == (ProductView { listed: true, ..old(self)@ }),
    {
        self.listed = true;
    }

    /// Sets the product as not listed.
    pub fn unlist(&mut self)
        ensures
            final(self)@ == (ProductView { listed: false, ..old(self)@ }),
    {
        self.listed = false;
    }

    /// Sets the product's price in pennies.
    pub fn set_price(&mut self, price: u32)
        ensures
            final(self)@ == (ProductView { price, ..old(self)@ }),
    {
        self.price = price;
    }

    /// Sets the product's description.
    pub fn set_description(&mut self, description: &str)
        ensures
            final(self)@ == (ProductView { description: description@, ..old(self)@ }),
    {
        self.description = description.to_owned();
    }

    /// Whether the product is listed.
    pub fn is_listed(&self) -> (listed: bool)
        ensures
            listed == self@.listed,
    {
        self.listed
    }

    /// The price of the product in pennies.
    pub fn price(&self) -> (price: u32)
        ensures
            price == self@.price,
    {
        self.price
    }

    /// The product's primary key.
    pub fn id(&self) -> (id: u32)
        ensures
            id == self@.id,
    {
        self.id
    }

    /// The name of the product.
    pub fn name(&self) -> (name: &str)
        ensures
            name@ == self@.name,
    {
        self.name.as_str()
    }

    /// The description of the product.
    pub fn description(&self) -> (description: &str)
        ensures
            description@ == self@.description,
    {
        self.description.as_str()
    }

    /// The paths of the product's images.
    pub fn images(&self) -> (images: &Vec<String>)
        ensures
            images.deep_view() == self@.images,
    {
        &self.images
    }

    /// Whether the product is within reach of a search or a fetch: every
    /// product is for one that looks at unlisted products too, a listed
    /// product for anyone.
    pub fn visible(&self, include_unlisted: bool) -> (visible: bool)
        ensures
            visible == (include_unlisted || self@.listed),
    {
        include_unlisted || self.listed
    }

    /// Sets the product's name.
    pub fn set_name(&mut self, name: &str)
        ensures
            final(self)@ == (ProductView { name: name@, ..old(self)@ }),
    {
        self.name = name.to_owned();
    }
}

/// What to look for among the stored products. A field that is `None` does
/// not narrow the search.
#[derive(Debug)]
pub struct ProductSearchParameters {
    /// The beginning of the name.
    pub name: Option<String>,
    /// The lowest price, in pennies.
    pub price_min: Option<u32>,
    /// The highest price, in pennies.
    pub price_max: Option<u32>,
    /// Whether the products are listed.
    pub listed: Option<bool>,
}

impl ProductSearchParameters {
    /// Whether a product is among those looked for.
    pub open spec fn matches_product(self, product: ProductView) -> bool {
        &&& self.name matches Some(name) ==> name@.is_prefix_of(product.name)
        &&& self.price_min matches Some(low) ==> product.price >= low
        &&& self.price_max matches Some(high) ==> product.price <= high
        &&& self.listed matches Some(listed) ==> product.listed == listed
    }

    /// The search that narrows nothing.
    pub fn any() -> (parameters: ProductSearchParameters)
        ensures
            parameters.name is None,
            parameters.price_min is None,
            parameters.price_max is None,
            parameters.listed is None,
    {
        ProductSearchParameters { name: None, price_min: None, price_max: None, listed: None }
    }

    /// The same search among the listed products only, or among all of them.
    pub fn scoped(self, listed_only: bool) -> (parameters: ProductSearchParameters)
        ensures
            parameters.name == self.name,
            parameters.price_min == self.price_min,
            parameters.price_max == self.price_max,
            parameters.listed == (if listed_only {
                Some(true)
            } else {
                None
            }),
    {
        ProductSearchParameters {
            name: self.name,
            price_min: self.price_min,
            price_max: self.price_max,
            listed: if listed_only {
                Some(true)
            } else {
                None
            },
        }
    }
}

/// A change to a stored product. A field that is `None` leaves its part of
/// the product as it is.
#[derive(Debug)]
pub struct ProductUpdate {
    /// The product's new name.
    pub name: Option<String>,
    /// The product's new price.
    pub price: Option<u32>,
    /// The product's new listing status.
    pub listed: Option<bool>,
    /// The product's new description.
    pub description: Option<String>,
}

impl ProductUpdate {
    /// The product after the change.
    pub open spec fn applied(self, product: ProductView) -> ProductView {
        ProductView {
            id: product.id,
            name: match self.name {
                Some(name) => name@,
                None => product.name,
            },
            description: match self.description {
                Some(description) => description@,
                None => product.description,
            },
            listed: match self.listed {
                Some(listed) => listed,
                None => product.listed,
            },
            price: match self.price {
                Some(price) => price,
                None => product.price,
            },
            images: product.images,
        }
    }

    /// Makes the change to a product.
    pub fn apply(self, product: &mut Product)
        ensures
            final(product)@ == self.applied(old(product)@),
    {
        if let Some(name) = self.name {
            product.set_name(name.as_str());
        }
        if let Some(price) = self.price {
            product.set_price(price);
        }
        if let Some(listed) = self.listed {
            if listed {
                product.list();
            } else {
                product.unlist();
            }
        }
        if let Some(description) = self.description {
            product.set_description(description.as_str());
        }
    }
}

/// A category that is about to be stored.
#[derive(Debug)]
pub struct CategoryInsert {
    /// The name of the category.
    pub name: String,
    /// A description of the category.
    pub description: String,
}

/// A stored category.
#[derive(Debug)]
pub struct Category {
    /// The category's primary key.
    pub id: i64,
    /// The name of the category.
    pub name: String,
    /// A description of the category.
    pub description: String,
}

/// The mathematical content of a [`Category`].
pub struct CategoryView {
    pub id: i64,
    pub name: Seq<char>,
    pub description: Seq<char>,
}

impl View for Category {
    type V = CategoryView;

    open spec fn view(&self) -> CategoryView {
        CategoryView { id: self.id, name: self.name@, description: self.description@ }
    }
}

impl Category {
    /// The category of a stored row.
    pub fn from_row(id: i64, name: String, description: String) -> (category: Category)
        ensures
            category@ == (CategoryView { id, name: name@, description: description@ }),
    {
        Category { id, name, description }
    }

    /// The category's primary key.
    pub fn id(&self) -> (id: i64)
        ensures
            id == self@.id,
    {
        self.id
    }

    /// The name of the category.
    pub fn name(&self) -> (name: &str)
        ensures
            name@ == self@.name,
    {
        self.name.as_str()
    }

    /// The description of the category.
    pub fn description(&self) -> (description: &str)
        ensures
            description@ == self@.description,
    {
        self.description.as_str()
    }
}

/// How far an order has come.
#[derive(Clone, Copy, Debug, PartialEq, Eq, Structural)]
pub enum AppOrderStatus {
    /// Placed and not yet paid for.
    Unconfirmed,
    /// Paid for.
    Confirmed,
    /// Sent out.
    Fulfilled,
}

/// Why an order cannot be fulfilled.
#[derive(Clone, Copy, Debug, PartialEq, Eq, Structural)]
pub enum OrderFulfilmentError {
    /// Only a confirmed order can be fulfilled.
    OrderNotConfirmed,
}

impl AppOrderStatus {
    /// The name under which the directory keeps the status, as a
    /// specification.
    pub open spec fn spec_name(self) -> Seq<char> {
        match self {
            AppOrderStatus::Unconfirmed => "Unconfirmed"@,
            AppOrderStatus::Confirmed => "Confirmed"@,
            AppOrderStatus::Fulfilled => "Fulfilled"@,
        }
    }

    /// The name under which the directory keeps the status.
    pub fn name(self) -> (name: &'static str)
        ensures
            name@ == self.spec_name(),
    {
        match self {
            AppOrderStatus::Unconfirmed => "Unconfirmed",
            AppOrderStatus::Confirmed => "Confirmed",
            AppOrderStatus::Fulfilled => "Fulfilled",
        }
    }

    /// The status that the directory keeps under a name; `None` for a name
    /// that is no status's.
    pub fn from_name(name: &str) -> (status: Option<AppOrderStatus>)
        ensures
            match status {
                Some(found) => name@ == found.spec_name(),
                None => name@ != AppOrderStatus::Unconfirmed.spec_name() && name@
                    != AppOrderStatus::Confirmed.spec_name() && name@
                    != AppOrderStatus::Fulfilled.spec_name(),
            },
    {
        let owned = name.to_owned();
        if owned == String::from_str("Unconfirmed") {
            Some(AppOrderStatus::Unconfirmed)
        } else if owned == String::from_str("Confirmed") {
            Some(AppOrderStatus::Confirmed)
        } else if owned == String::from_str("Fulfilled") {
            Some(AppOrderStatus::Fulfilled)
        } else {
            None
        }
    }

    /// The status after payment: every order becomes confirmed.
    pub fn confirmed(self) -> (status: AppOrderStatus)
        ensures
            status == AppOrderStatus::Confirmed,
    {
        AppOrderStatus::Confirmed
    }

    /// The status after fulfilment, which only a confirmed order can reach.
    pub fn fulfilled(self) -> (status: Result<AppOrderStatus, OrderFulfilmentError>)
        ensures
            self == AppOrderStatus::Confirmed ==> status == Ok::<
                AppOrderStatus,
                OrderFulfilmentError,
            >(AppOrderStatus::Fulfilled),
            self != AppOrderStatus::Confirmed ==> status == Err::<
                AppOrderStatus,
                OrderFulfilmentError,
            >(OrderFulfilmentError::OrderNotConfirmed),
    {
        match self {
            AppOrderStatus::Confirmed => Ok(AppOrderStatus::Fulfilled),
            _ => Err(OrderFulfilmentError::OrderNotConfirmed),
        }
    }
}

/// The cost of an order that is too large to charge.
#[derive(Clone, Copy, Debug, PartialEq, Eq, Structural)]
pub struct CostTooLarge;

/// The sum of price times count over the lines of an order, in pennies.
pub open spec fn order_total(lines: Seq<(u32, u32)>) -> nat
    decreases lines.len(),
{
    if lines.len() == 0 {
        0
    } else {
        order_total(lines.drop_last()) + (lines.last().0 as nat) * (lines.last().1 as nat)
    }
}

/// The largest amount that can be charged, in pennies.
pub const MAX_AMOUNT: u64 = 9223372036854775807;

/// The amount to charge for an order whose lines give a price in pennies and
/// a count each. An order that costs more than can be charged is refused.
pub fn total_cost(lines: &Vec<(u32, u32)>) -> (total: Result<u64, CostTooLarge>)
    ensures
        match total {
            Ok(amount) => amount == order_total(lines@) && amount <= MAX_AMOUNT,
            Err(_) => order_total(lines@) > MAX_AMOUNT,
        },
{
    let mut total: u64 = 0;
    let mut done: usize = 0;
    while done < lines.len()
        invariant
            done <= lines.len(),
            total == order_total(lines@.take(done as int)),
            total <= MAX_AMOUNT,
        decreases lines.len() - done,
    {
        let (price, count) = lines[done];
        assert((price as nat) * (count as nat) <= 0xffff_ffff * 0xffff_ffff) by (nonlinear_arith)
            requires
                price <= 0xffff_ffff,
                count <= 0xffff_ffff,
        ;
        let line: u64 = (price as u64) * (count as u64);
        proof {
            assert(lines@.take(done + 1).drop_last() =~= lines@.take(done as int));
            assert(lines@.take(done + 1).last() == lines@[done as int]);
            lemma_total_grows(lines@, done + 1);
        }
        if line > MAX_AMOUNT - total {
            return Err(CostTooLarge);
        }
        total = total + line;
        done = done + 1;
    }
    assert(lines@.take(done as int) =~= lines@);
    Ok(total)
}

/// The total of the first lines of an order is no more than the total of
/// all of them.
proof fn lemma_total_grows(lines: Seq<(u32, u32)>, first: int)
    requires
        0 <= first <= lines.len(),
    ensures
        order_total(lines.take(first)) <= order_total(lines),
    decreases lines.len() - first,
{
    if first == lines.len() {
        assert(lines.take(first) =~= lines);
    } else {
        lemma_total_grows(lines, first + 1);
        assert(lines.take(first + 1).drop_last() =~= lines.take(first));
        assert((lines.take(first + 1).last().0 as nat) * (lines.take(first + 1).last().1 as nat)
            >= 0) by (nonlinear_arith);
    }
}

} // verus!
