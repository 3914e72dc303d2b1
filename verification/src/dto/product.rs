use vstd::prelude::*;

use crate::dto::validation::{
    check_category, check_discount, check_product_text, spec_broken, spec_check_category,
    spec_check_discount, spec_check_product_text, Broken, FieldError,
};

verus! {

/// What a caller sends to add a product.
#[derive(Debug, Clone)]
pub struct CreateProductDto {
    pub name: String,
    pub price: u32,
    pub description: String,
    pub images: Vec<String>,
    /// The discount in percent, from 0 to 100.
    pub discount: u8,
    /// 0 for a helmet, 1 for a bike.
    pub category: u8,
}

/// What a caller sends to change a product. A field that is absent stays
/// as it is.
#[derive(Debug, Clone)]
pub struct UpdateProductDto {
    pub _id: String,
    pub name: Option<String>,
    pub price: Option<u32>,
    pub description: Option<String>,
    pub images: Option<Vec<String>>,
    pub discount: Option<u8>,
    pub category: Option<u8>,
}

impl CreateProductDto {
    /// The rules that this request breaks: name and description have at
    /// least two characters each, the discount is at most 100, and the
    /// category is 0 or 1.
    pub open spec fn spec_violations(&self) -> Seq<Broken> {
        spec_check_product_text("name"@, self.name@) + spec_check_product_text(
            "description"@,
            self.description@,
        ) + spec_check_discount(self.discount) + spec_check_category(self.category)
    }

    /// The rules that this request breaks, in the order name, description,
    /// discount, category. An empty list says that the request is in
    /// order.
    pub fn validate(&self) -> (errors: Vec<FieldError>)
        ensures
            spec_broken(errors@) == self.spec_violations(),
    {
        let mut errors: Vec<FieldError> = Vec::new();
        assert(spec_broken(errors@) =~= Seq::<Broken>::empty());
        check_product_text(&mut errors, "name", self.name.as_str());
        check_product_text(&mut errors, "description", self.description.as_str());
        check_discount(&mut errors, self.discount);
        check_category(&mut errors, self.category);
        assert(spec_broken(errors@) =~= self.spec_violations());
        errors
    }
}

impl UpdateProductDto {
    /// The rules that this request breaks. A field that is absent breaks
    /// none; one that is present is held to the rule of its kind.
    pub open spec fn spec_violations(&self) -> Seq<Broken> {
        (match self.name {
            Some(name) => spec_check_product_text("name"@, name@),
            None => Seq::empty(),
        }) + (match self.description {
            Some(description) => spec_check_product_text("description"@, description@),
            None => Seq::empty(),
        }) + (match self.discount {
            Some(discount) => spec_check_discount(discount),
            None => Seq::empty(),
        }) + (match self.category {
            Some(category) => spec_check_category(category),
            None => Seq::empty(),
        })
    }

    /// The rules that this request breaks, in the order name, description,
    /// discount, category. An empty list says that the request is in
    /// order.
    pub fn validate(&self) -> (errors: Vec<FieldError>)
        ensures
            spec_broken(errors@) == self.spec_violations(),
    {
        let mut errors: Vec<FieldError> = Vec::new();
        assert(spec_broken(errors@) =~= Seq::<Broken>::empty());
        match &self.name {
            Some(name) => check_product_text(&mut errors, "name", name.as_str()),
            None => {},
        }
        match &self.description {
            Some(description) => check_product_text(
                &mut errors,
                "description",
                description.as_str(),
            ),
            None => {},
        }
        match self.discount {
            Some(discount) => check_discount(&mut errors, discount),
            None => {},
        }
        match self.category {
            Some(category) => check_category(&mut errors, category),
            None => {},
        }
        assert(spec_broken(errors@) =~= self.spec_violations());
        errors
    }
}

} // verus!
