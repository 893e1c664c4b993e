use vstd::prelude::*;

verus! {

/// One inventory item. Timestamps are whole seconds since the Unix epoch.
pub struct Product {
    pub id: String,
    pub name: String,
    pub price: i64,
    pub barcode: String,
    pub department: String,
    pub supplier: String,
    pub label_printed: Option<bool>,
    pub created: i64,
    pub updated: i64,
    pub deleted: bool,
    pub stock_level: i64,
    pub max_stock: i64,
    pub version: i64,
}

/// The fields a client submits to create a product. `price` is the submitted
/// decimal amount, already cut down to a whole number.
pub struct NewProduct {
    pub name: String,
    pub price: i64,
    pub barcode: String,
    pub department: String,
    pub supplier: String,
    pub stock_level: i64,
    pub max_stock: i64,
}

/// A sparse change to a product, with the version the client believes current.
pub struct UpdatedProduct {
    pub name: Option<String>,
    pub price: Option<i64>,
    pub barcode: Option<String>,
    pub department: Option<String>,
    pub supplier: Option<String>,
    pub stock_level: Option<i64>,
    pub max_stock: Option<i64>,
    pub version: Option<i64>,
}

/// Why an update was refused.
#[derive(PartialEq, Eq, Structural, Clone, Copy, Debug)]
pub enum UpdateError {
    Deleted,
    MissingVersion,
    VersionConflict,
    NoChange,
}

/// `p / 100`, rounded toward zero.
pub open spec fn hundredths(p: int) -> int {
    if p >= 0 {
        p / 100
    } else {
        -((-p) / 100)
    }
}

/// The error an update meets on `p`, checked in this order, if any.
pub open spec fn update_error(p: Product, u: UpdatedProduct) -> Option<UpdateError> {
    if p.deleted {
        Some(UpdateError::Deleted)
    } else if u.version is None {
        Some(UpdateError::MissingVersion)
    } else if u.version->0 != p.version {
        Some(UpdateError::VersionConflict)
    } else if !submits_any(u) {
        Some(UpdateError::NoChange)
    } else {
        None
    }
}

/// Whether the request carries at least one field to change.
pub open spec fn submits_any(u: UpdatedProduct) -> bool {
    u.name is Some || u.price is Some || u.barcode is Some || u.department is Some
        || u.supplier is Some || u.max_stock is Some || u.stock_level is Some
}

pub open spec fn or_keep<T>(o: Option<T>, old: T) -> T {
    match o {
        Some(v) => v,
        None => old,
    }
}

/// `p` with every submitted field overwritten and its version one higher.
pub open spec fn applied(p: Product, u: UpdatedProduct) -> Product {
    Product {
        name: or_keep(u.name, p.name),
        price: match u.price {
            Some(v) => hundredths(v as int) as i64,
            None => p.price,
        },
        barcode: or_keep(u.barcode, p.barcode),
        department: or_keep(u.department, p.department),
        supplier: or_keep(u.supplier, p.supplier),
        max_stock: or_keep(u.max_stock, p.max_stock),
        stock_level: or_keep(u.stock_level, p.stock_level),
        version: (p.version + 1) as i64,
        ..p
    }
}

pub open spec fn name_if(b: bool, s: Seq<char>) -> Seq<Seq<char>> {
    if b {
        seq![s]
    } else {
        seq![]
    }
}

/// The names of the submitted fields, in a fixed order.
pub open spec fn changed_fields(u: UpdatedProduct) -> Seq<Seq<char>> {
    name_if(u.name is Some, "name"@) + name_if(u.price is Some, "price"@) + name_if(
        u.barcode is Some,
        "barcode"@,
    ) + name_if(u.department is Some, "department"@) + name_if(u.supplier is Some, "supplier"@)
        + name_if(u.max_stock is Some, "max_stock"@) + name_if(
        u.stock_level is Some,
        "stock_level"@,
    )
}

/// `p` marked deleted, its version one higher.
pub open spec fn marked_deleted(p: Product) -> Product {
    Product { deleted: true, version: (p.version + 1) as i64, ..p }
}

/// `p` with its stock moved by `delta`, its version one higher.
pub open spec fn adjusted(p: Product, delta: int) -> Product {
    Product { stock_level: (p.stock_level + delta) as i64, version: (p.version + 1) as i64, ..p }
}

/// What a freshly created product holds, given its id and creation time.
pub open spec fn created_as(
    r: Product,
    name: String,
    price: i64,
    barcode: String,
    department: String,
    supplier: String,
    stock_level: i64,
    max_stock: i64,
) -> bool {
    &&& r.id@.len() > 0
    &&& r.name == name
    &&& r.price == price
    &&& r.barcode == barcode
    &&& r.department == department
    &&& r.supplier == supplier
    &&& r.label_printed == Some(false)
    &&& r.created == r.updated
    &&& !r.deleted
    &&& r.stock_level == stock_level
    &&& r.max_stock == max_stock
    &&& r.version == 0
}

/// Relies on uuid::Uuid::new_v4 and the hyphenated text form that `to_string`
/// gives it: 32 hex digits and 4 hyphens.
#[verifier::external_body]
fn fresh_id() -> (r: String)
    ensures
        r@.len() == 36,
{
    uuid::Uuid::new_v4().to_string()
}

/// Relies on chrono::Utc::now and DateTime::timestamp: the current time, in
/// whole seconds since the Unix epoch. Nothing is promised of its value.
#[verifier::external_body]
fn now_seconds() -> (r: i64) {
    chrono::Utc::now().timestamp()
}

/// `p / 100`, rounded toward zero, without overflow for any `p`.
pub fn to_hundredths(p: i64) -> (r: i64)
    ensures
        r as int == hundredths(p as int),
{
    if p >= 0 {
        p / 100
    } else {
        // -p may not fit; -p == m + 1
        let m: i64 = -(p + 1);
        let q: i64 = m / 100;
        let carry: i64 = if m % 100 == 99 { 1 } else { 0 };
        assert((m + 1) / 100 == m / 100 + carry) by {
            assert(m == (m / 100) * 100 + m % 100);
        }
        -(q + carry)
    }
}

impl Product {
    /// A fresh product: new id, version 0, not deleted, both timestamps now.
    pub fn new(
        name: String,
        price: i64,
        barcode: String,
        department: String,
        supplier: String,
        stock_level: i64,
        max_stock: i64,
    ) -> (r: Product)
        ensures
            created_as(r, name, price, barcode, department, supplier, stock_level, max_stock),
    {
        let now = now_seconds();
        Product {
            id: fresh_id(),
            name: name,
            price: price,
            barcode: barcode,
            department: department,
            supplier: supplier,
            label_printed: Some(false),
            created: now,
            updated: now,
            deleted: false,
            stock_level: stock_level,
            max_stock: max_stock,
            version: 0,
        }
    }

    /// A fresh product from a creation request; the price is divided by 100.
    pub fn from_new_product(new_product: NewProduct) -> (r: Product)
        ensures
            created_as(
                r,
                new_product.name,
                hundredths(new_product.price as int) as i64,
                new_product.barcode,
                new_product.department,
                new_product.supplier,
                new_product.stock_level,
                new_product.max_stock,
            ),
    {
        let price = to_hundredths(new_product.price);
        Product::new(
            new_product.name,
            price,
            new_product.barcode,
            new_product.department,
            new_product.supplier,
            new_product.stock_level,
            new_product.max_stock,
        )
    }

    /// An exact copy.
    pub fn duplicate(&self) -> (r: Product)
        ensures
            r == *self,
    {
        Product {
            id: self.id.clone(),
            name: self.name.clone(),
            price: self.price,
            barcode: self.barcode.clone(),
            department: self.department.clone(),
            supplier: self.supplier.clone(),
            label_printed: self.label_printed,
            created: self.created,
            updated: self.updated,
            deleted: self.deleted,
            stock_level: self.stock_level,
            max_stock: self.max_stock,
            version: self.version,
        }
    }

    /// Soft delete: the flag is set and the version bumped, on every call.
    pub fn delete(&mut self)
        requires
            old(self).version < i64::MAX,
        ensures
            *final(self) == marked_deleted(*old(self)),
    {
        self.deleted = true;
        self.version = self.version + 1;
    }

    /// Moves the stock level by `delta` and bumps the version; no bounds apply.
    pub fn adjust_stock(&mut self, delta: i64)
        requires
            old(self).version < i64::MAX,
            i64::MIN <= old(self).stock_level + delta <= i64::MAX,
        ensures
            *final(self) == adjusted(*old(self), delta as int),
    {
        self.stock_level = self.stock_level + delta;
        self.version = self.version + 1;
    }

    /// Applies a sparse update under the optimistic-concurrency rule. On
    /// success every submitted field is overwritten, the version goes up by
    /// one, and the names of the changed fields come back; on failure the
    /// product is left as it was.
    pub fn update_product(&mut self, updated_product: UpdatedProduct) -> (r: Result<
        Vec<String>,
        UpdateError,
    >)
        requires
            old(self).version < i64::MAX,
        ensures
            r is Ok <==> update_error(*old(self), updated_product) is None,
            r matches Err(e) ==> update_error(*old(self), updated_product) == Some(e)
                && *final(self) == *old(self),
            r matches Ok(fields) ==> *final(self) == applied(*old(self), updated_product)
                && fields@.map_values(|s: String| s@) == changed_fields(updated_product),
    {
        if self.deleted {
            return Err(UpdateError::Deleted);
        }
        let version = match updated_product.version {
            Some(version) => version,
            None => return Err(UpdateError::MissingVersion),
        };
        if version != self.version {
            return Err(UpdateError::VersionConflict);
        }
        let ghost start = *self;
        let ghost u = updated_product;
        let mut fields: Vec<String> = Vec::new();
        let mut next = self.duplicate();
        match updated_product.name {
            Some(name) => {
                next.name = name;
                fields.push("name".to_string());
            },
            None => {},
        }
        match updated_product.price {
            Some(price) => {
                next.price = to_hundredths(price);
                fields.push("price".to_string());
            },
            None => {},
        }
        match updated_product.barcode {
            Some(barcode) => {
                next.barcode = barcode;
                fields.push("barcode".to_string());
            },
            None => {},
        }
        match updated_product.department {
            Some(department) => {
                next.department = department;
                fields.push("department".to_string());
            },
            None => {},
        }
        match updated_product.supplier {
            Some(supplier) => {
                next.supplier = supplier;
                fields.push("supplier".to_string());
            },
            None => {},
        }
        match updated_product.max_stock {
            Some(max_stock) => {
                next.max_stock = max_stock;
                fields.push("max_stock".to_string());
            },
            None => {},
        }
        match updated_product.stock_level {
            Some(stock_level) => {
                next.stock_level = stock_level;
                fields.push("stock_level".to_string());
            },
            None => {},
        }
        if fields.len() == 0 {
            return Err(UpdateError::NoChange);
        }
        next.version = self.version + 1;
        *self = next;
        proof {
            assert(*self == applied(start, u));
            assert(fields@.map_values(|s: String| s@) =~= changed_fields(u));
        }
        Ok(fields)
    }
}

impl UpdateError {
    /// The human-readable reason a client is shown.
    pub fn reason(&self) -> (r: &'static str)
        ensures
            r@ == update_error_text(*self),
    {
        match self {
            UpdateError::Deleted => "Product deleted",
            UpdateError::MissingVersion => "Version not specified",
            UpdateError::VersionConflict => "Out of date",
            UpdateError::NoChange => "No fields to update",
        }
    }
}

pub open spec fn update_error_text(e: UpdateError) -> Seq<char> {
    match e {
        UpdateError::Deleted => "Product deleted"@,
        UpdateError::MissingVersion => "Version not specified"@,
        UpdateError::VersionConflict => "Out of date"@,
        UpdateError::NoChange => "No fields to update"@,
    }
}

/// A successful update raises the version by exactly one, and a field that
/// was not submitted keeps its value; id, creation data and flags never change.
pub proof fn lemma_update_touches_only_submitted(p: Product, u: UpdatedProduct)
    requires
        p.version < i64::MAX,
        update_error(p, u) is None,
    ensures
        applied(p, u).version == p.version + 1,
        u.name is None ==> applied(p, u).name == p.name,
        u.price is None ==> applied(p, u).price == p.price,
        u.barcode is None ==> applied(p, u).barcode == p.barcode,
        u.department is None ==> applied(p, u).department == p.department,
        u.supplier is None ==> applied(p, u).supplier == p.supplier,
        u.stock_level is None ==> applied(p, u).stock_level == p.stock_level,
        u.max_stock is None ==> applied(p, u).max_stock == p.max_stock,
        applied(p, u).id == p.id,
        applied(p, u).label_printed == p.label_printed,
        applied(p, u).created == p.created,
        applied(p, u).updated == p.updated,
        applied(p, u).deleted == p.deleted,
{
}

/// On a live product, an update whose version differs from the stored one
/// is refused as a conflict (and a refused update changes nothing).
pub proof fn lemma_stale_version_conflicts(p: Product, u: UpdatedProduct)
    requires
        !p.deleted,
        u.version is Some,
        u.version->0 != p.version,
    ensures
        update_error(p, u) == Some(UpdateError::VersionConflict),
{
}

/// An update of a deleted product is refused as such, whatever its version.
pub proof fn lemma_deleted_refuses_update(p: Product, u: UpdatedProduct)
    requires
        p.deleted,
    ensures
        update_error(p, u) == Some(UpdateError::Deleted),
{
}

} // verus!
