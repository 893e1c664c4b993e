use vstd::prelude::*;
use crate::product::{
    Product,
    NewProduct,
    UpdatedProduct,
    UpdateError,
    created_as,
    hundredths,
    update_error,
    applied,
    marked_deleted,
    adjusted,
};
use crate::search::{
    LevenshteinDistance,
    rank_products,
    ranked,
    views,
    score,
    entry,
    lemma_exact_name_ranks_first,
};

verus! {

/// The shared catalog: every product ever created, in insertion order.
pub struct ProgramState {
    pub products: Vec<Product>,
}

/// Why a repository operation was refused.
#[derive(PartialEq, Eq, Structural, Clone, Copy, Debug)]
pub enum RepositoryError {
    NotFound,
    Rejected(UpdateError),
}

/// A reason handed back to a client in place of a product.
pub struct CustomResponse {
    pub reason: String,
}

impl CustomResponse {
    pub fn new(message: String) -> (r: CustomResponse)
        ensures
            r.reason == message,
    {
        CustomResponse { reason: message }
    }
}

impl RepositoryError {
    /// The human-readable reason a client is shown.
    pub fn reason(&self) -> (r: &'static str)
        ensures
            r@ == match *self {
                RepositoryError::NotFound => "Product not found"@,
                RepositoryError::Rejected(e) => crate::product::update_error_text(e),
            },
    {
        match self {
            RepositoryError::NotFound => "Product not found",
            RepositoryError::Rejected(e) => e.reason(),
        }
    }
}

pub uninterp spec fn lower_of(s: Seq<char>) -> Seq<char>;

/// Relies on str::to_lowercase: the lowercase form, which depends on the
/// characters alone.
#[verifier::external_body]
fn lowercase(s: &String) -> (r: String)
    ensures
        r@ == lower_of(s@),
{
    s.to_lowercase()
}

/// `k` is the first position of a product with this id.
pub open spec fn first_at(ps: Seq<Product>, id: Seq<char>, k: int) -> bool {
    &&& 0 <= k < ps.len()
    &&& ps[k].id@ == id
    &&& forall|i: int| 0 <= i < k ==> ps[i].id@ != id
}

/// Where the product with this id stands, or -1.
pub open spec fn index_of(ps: Seq<Product>, id: Seq<char>) -> int {
    if exists|k: int| first_at(ps, id, k) {
        choose|k: int| first_at(ps, id, k)
    } else {
        -1
    }
}

/// The products with the stock of the one under `id` moved by `delta`.
pub open spec fn adjusted_at(ps: Seq<Product>, id: Seq<char>, delta: int) -> Seq<Product> {
    let k = index_of(ps, id);
    ps.update(k, adjusted(ps[k], delta))
}

/// The product under `id` can take one more version.
pub open spec fn bumpable(ps: Seq<Product>, id: Seq<char>) -> bool {
    index_of(ps, id) >= 0 ==> ps[index_of(ps, id)].version < i64::MAX
}

/// One page of the catalog: `[index * size, index * size + size)`, clipped.
pub open spec fn page(ps: Seq<Product>, index: int, size: int) -> Seq<Product> {
    let start = if index * size < ps.len() {
        index * size
    } else {
        ps.len() as int
    };
    let end = if index * size + size < ps.len() {
        index * size + size
    } else {
        ps.len() as int
    };
    ps.subrange(start, end)
}

/// What a search for `term` reports over the catalog, names and term
/// compared in lowercase.
pub open spec fn search_results(ps: Seq<Product>, term: Seq<char>) -> Seq<LevenshteinDistance> {
    ranked(ps, ps.map_values(|p: Product| lower_of(p.name@)), lower_of(term))
}

proof fn lemma_first_at_unique(ps: Seq<Product>, id: Seq<char>, k: int)
    requires
        first_at(ps, id, k),
    ensures
        index_of(ps, id) == k,
{
    let j = choose|j: int| first_at(ps, id, j);
    assert(first_at(ps, id, j));
    if j < k {
        assert(ps[j].id@ != id);
    }
    if k < j {
        assert(ps[k].id@ != id);
    }
}

impl ProgramState {
    /// An empty catalog.
    pub fn new() -> (r: ProgramState)
        ensures
            r.products@.len() == 0,
    {
        ProgramState { products: Vec::new() }
    }

    /// The first position of `id`, if any.
    fn locate(&self, id: &String) -> (r: Option<usize>)
        ensures
            r matches Some(k) ==> index_of(self.products@, id@) == k,
            r is None ==> index_of(self.products@, id@) == -1,
    {
        let mut k: usize = 0;
        while k < self.products.len()
            invariant
                k <= self.products@.len(),
                forall|i: int| 0 <= i < k ==> self.products@[i].id@ != id@,
            decreases self.products.len() - k,
        {
            if self.products[k].id == *id {
                proof {
                    lemma_first_at_unique(self.products@, id@, k as int);
                }
                return Some(k);
            }
            k = k + 1;
        }
        proof {
            if exists|j: int| first_at(self.products@, id@, j) {
                let j = choose|j: int| first_at(self.products@, id@, j);
                assert(self.products@[j].id@ != id@);
            }
        }
        None
    }

    /// Creates a product from the request and appends it.
    pub fn add_product(&mut self, new_product: NewProduct) -> (r: Product)
        ensures
            created_as(
                r,
                new_product.name,
                hundredths(new_product.price as int) as i64,
                new_product.barcode,
                new_product.department,
                new_product.supplier,
                new_product.stock_level,
                new_product.max_stock,
            ),
            final(self).products@ == old(self).products@.push(r),
    {
        let product = Product::from_new_product(new_product);
        self.products.push(product.duplicate());
        product
    }

    /// The first product with this id, deleted or not.
    pub fn find_product_by_id(&self, id: &String) -> (r: Option<Product>)
        ensures
            index_of(self.products@, id@) < 0 ==> r is None,
            index_of(self.products@, id@) >= 0 ==> r == Some(
                self.products@[index_of(self.products@, id@)],
            ),
    {
        match self.locate(id) {
            Some(k) => Some(self.products[k].duplicate()),
            None => None,
        }
    }

    /// Applies an update to the product with this id; see
    /// `Product::update_product`.
    pub fn update_product(&mut self, id: &String, updated_product: UpdatedProduct) -> (r: Result<
        Product,
        RepositoryError,
    >)
        requires
            bumpable(old(self).products@, id@),
        ensures
            ({
                let ps = old(self).products@;
                let k = index_of(ps, id@);
                &&& k < 0 ==> r == Err::<Product, RepositoryError>(RepositoryError::NotFound)
                    && final(self).products@ == ps
                &&& k >= 0 && update_error(ps[k], updated_product) is Some ==> r == Err::<
                    Product,
                    RepositoryError,
                >(RepositoryError::Rejected(update_error(ps[k], updated_product)->0))
                    && final(self).products@ == ps
                &&& k >= 0 && update_error(ps[k], updated_product) is None ==> r == Ok::<
                    Product,
                    RepositoryError,
                >(applied(ps[k], updated_product)) && final(self).products@ == ps.update(
                    k,
                    applied(ps[k], updated_product),
                )
            }),
    {
        let k = match self.locate(id) {
            Some(k) => k,
            None => return Err(RepositoryError::NotFound),
        };
        let mut product = self.products[k].duplicate();
        match product.update_product(updated_product) {
            Ok(_) => {
                self.products.set(k, product.duplicate());
                Ok(product)
            },
            Err(e) => Err(RepositoryError::Rejected(e)),
        }
    }

    /// Moves the stock of the product with this id by `delta`.
    fn adjust_product(&mut self, id: &String, delta: i64) -> (r: Result<Product, RepositoryError>)
        requires
            bumpable(old(self).products@, id@),
            index_of(old(self).products@, id@) >= 0 ==> i64::MIN <= old(
                self,
            ).products@[index_of(old(self).products@, id@)].stock_level + delta <= i64::MAX,
        ensures
            index_of(old(self).products@, id@) < 0 ==> r == Err::<Product, RepositoryError>(
                RepositoryError::NotFound,
            ) && final(self).products@ == old(self).products@,
            index_of(old(self).products@, id@) >= 0 ==> final(self).products@ == adjusted_at(
                old(self).products@,
                id@,
                delta as int,
            ) && r == Ok::<Product, RepositoryError>(
                final(self).products@[index_of(old(self).products@, id@)],
            ),
    {
        let k = match self.locate(id) {
            Some(k) => k,
            None => return Err(RepositoryError::NotFound),
        };
        let mut product = self.products[k].duplicate();
        product.adjust_stock(delta);
        self.products.set(k, product.duplicate());
        Ok(product)
    }

    /// Adds one to the stock of the product with this id.
    pub fn increment_product(&mut self, id: &String) -> (r: Result<Product, RepositoryError>)
        requires
            bumpable(old(self).products@, id@),
            index_of(old(self).products@, id@) >= 0 ==> old(self).products@[index_of(
                old(self).products@,
                id@,
            )].stock_level < i64::MAX,
        ensures
            index_of(old(self).products@, id@) < 0 ==> r == Err::<Product, RepositoryError>(
                RepositoryError::NotFound,
            ) && final(self).products@ == old(self).products@,
            index_of(old(self).products@, id@) >= 0 ==> final(self).products@ == adjusted_at(
                old(self).products@,
                id@,
                1,
            ) && r == Ok::<Product, RepositoryError>(
                final(self).products@[index_of(old(self).products@, id@)],
            ),
    {
        self.adjust_product(id, 1)
    }

    /// Takes one from the stock of the product with this id; it may go
    /// below zero.
    pub fn decrement_product(&mut self, id: &String) -> (r: Result<Product, RepositoryError>)
        requires
            bumpable(old(self).products@, id@),
            index_of(old(self).products@, id@) >= 0 ==> old(self).products@[index_of(
                old(self).products@,
                id@,
            )].stock_level > i64::MIN,
        ensures
            index_of(old(self).products@, id@) < 0 ==> r == Err::<Product, RepositoryError>(
                RepositoryError::NotFound,
            ) && final(self).products@ == old(self).products@,
            index_of(old(self).products@, id@) >= 0 ==> final(self).products@ == adjusted_at(
                old(self).products@,
                id@,
                -1,
            ) && r == Ok::<Product, RepositoryError>(
                final(self).products@[index_of(old(self).products@, id@)],
            ),
    {
        self.adjust_product(id, -1)
    }

    /// Soft-deletes the product with this id: it stays listed and findable.
    pub fn delete_product_by_id(&mut self, id: &String) -> (r: Result<Product, RepositoryError>)
        requires
            bumpable(old(self).products@, id@),
        ensures
            index_of(old(self).products@, id@) < 0 ==> r == Err::<Product, RepositoryError>(
                RepositoryError::NotFound,
            ) && final(self).products@ == old(self).products@,
            index_of(old(self).products@, id@) >= 0 ==> ({
                let k = index_of(old(self).products@, id@);
                &&& final(self).products@ == old(self).products@.update(
                    k,
                    marked_deleted(old(self).products@[k]),
                )
                &&& r == Ok::<Product, RepositoryError>(marked_deleted(old(self).products@[k]))
            }),
    {
        let k = match self.locate(id) {
            Some(k) => k,
            None => return Err(RepositoryError::NotFound),
        };
        let mut product = self.products[k].duplicate();
        product.delete();
        self.products.set(k, product.duplicate());
        Ok(product)
    }

    /// One page of the catalog, deleted products included; empty past the end.
    pub fn list_products(&self, page_index: usize, page_size: usize) -> (r: Vec<Product>)
        ensures
            r@ == page(self.products@, page_index as int, page_size as int),
    {
        let len = self.products.len();
        let mut r: Vec<Product> = Vec::new();
        let start = match page_index.checked_mul(page_size) {
            Some(s) => s,
            None => return r,
        };
        if start >= len {
            proof {
                assert(r@ =~= page(self.products@, page_index as int, page_size as int));
            }
            return r;
        }
        let end = if page_size <= len - start {
            start + page_size
        } else {
            len
        };
        let mut k: usize = start;
        while k < end
            invariant
                start <= k <= end <= len,
                len == self.products@.len(),
                r@ == self.products@.subrange(start as int, k as int),
            decreases end - k,
        {
            r.push(self.products[k].duplicate());
            k = k + 1;
            assert(r@ =~= self.products@.subrange(start as int, k as int));
        }
        r
    }

    /// Fuzzy search over product names, compared in lowercase; see
    /// `rank_products`.
    pub fn search_for_products(&self, search: &String) -> (r: Vec<LevenshteinDistance>)
        ensures
            r@ == search_results(self.products@, search@),
    {
        let term = lowercase(search);
        let ghost ps = self.products@;
        let mut names: Vec<String> = Vec::new();
        let mut k: usize = 0;
        while k < self.products.len()
            invariant
                ps == self.products@,
                k <= ps.len(),
                names@.len() == k,
                forall|i: int| 0 <= i < k ==> names@[i]@ == lower_of(#[trigger] ps[i].name@),
            decreases self.products.len() - k,
        {
            names.push(lowercase(&self.products[k].name));
            k = k + 1;
        }
        assert(views(names@) =~= ps.map_values(|p: Product| lower_of(p.name@)));
        rank_products(&self.products, &names, &term)
    }
}

/// Incrementing and then decrementing a product leaves its stock as it was
/// and raises its version by two.
pub proof fn lemma_increment_then_decrement(ps: Seq<Product>, id: Seq<char>)
    requires
        index_of(ps, id) >= 0,
        ps[index_of(ps, id)].version < i64::MAX - 1,
        ps[index_of(ps, id)].stock_level < i64::MAX,
    ensures
        ({
            let k = index_of(ps, id);
            let once = adjusted_at(ps, id, 1);
            let twice = adjusted_at(once, id, -1);
            &&& index_of(once, id) == k
            &&& twice[k].stock_level == ps[k].stock_level
            &&& twice[k].version == ps[k].version + 2
            &&& twice == ps.update(k, Product { version: (ps[k].version + 2) as i64, ..ps[k] })
        }),
{
    let k = index_of(ps, id);
    assert(first_at(ps, id, k));
    let once = adjusted_at(ps, id, 1);
    assert(first_at(once, id, k));
    lemma_first_at_unique(once, id, k);
    let twice = adjusted_at(once, id, -1);
    assert(twice =~= ps.update(k, Product { version: (ps[k].version + 2) as i64, ..ps[k] }));
}

/// Any page of an empty catalog is empty.
pub proof fn lemma_empty_catalog_pages(page_index: usize, page_size: usize)
    ensures
        page(Seq::<Product>::empty(), page_index as int, page_size as int) == Seq::<
            Product,
        >::empty(),
{
    assert(0 <= page_index as int * page_size as int) by (nonlinear_arith);
    assert(page(Seq::<Product>::empty(), page_index as int, page_size as int) =~= Seq::<
        Product,
    >::empty());
}

/// A search for a term equal, in lowercase, to a product's name reports that
/// product first, at distance 0, unless an earlier product is also at
/// distance 0.
pub proof fn lemma_exact_name_found_first(ps: Seq<Product>, term: Seq<char>, k: int)
    requires
        0 <= k < ps.len(),
        lower_of(ps[k].name@) == lower_of(term),
        forall|i: int|
            0 <= i < k ==> score(lower_of(term), lower_of(#[trigger] ps[i].name@)) != 0,
    ensures
        search_results(ps, term).len() > 0,
        search_results(ps, term)[0] == entry(ps[k], 0),
{
    let names = ps.map_values(|p: Product| lower_of(p.name@));
    assert forall|i: int| 0 <= i < k implies score(lower_of(term), names[i]) != 0 by {
        assert(names[i] == lower_of(ps[i].name@));
    }
    lemma_exact_name_ranks_first(ps, names, lower_of(term), k);
}

} // verus!
