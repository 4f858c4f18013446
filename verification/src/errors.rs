//! Field errors as the service reports them: a list of (field, message)
//! pairs, and the collector that gathers them while request fields are
//! read.
use vstd::prelude::*;

verus! {

/// One error about one field of a request.
pub struct FieldError {
    pub field: String,
    pub message: String,
}

impl View for FieldError {
    type V = (Seq<char>, Seq<char>);

    open spec fn view(&self) -> (Seq<char>, Seq<char>) {
        (self.field@, self.message@)
    }
}

/// The message recorded for a required field that is missing.
pub open spec fn blank_message() -> Seq<char> {
    "can't be blank"@
}

/// The field errors of a refused request, in the order they were found.
pub struct Errors {
    pub errors: Vec<FieldError>,
}

impl View for Errors {
    type V = Seq<(Seq<char>, Seq<char>)>;

    open spec fn view(&self) -> Seq<(Seq<char>, Seq<char>)> {
        self.errors@.map_values(|e: FieldError| e@)
    }
}

impl Errors {
    /// The errors listed in `errs`, as (field, message) pairs.
    pub fn new(errs: &[(&str, &str)]) -> (r: Errors)
        ensures
            r@ == errs@.map_values(|p: (&str, &str)| (p.0@, p.1@)),
    {
        let mut errors: Vec<FieldError> = Vec::new();
        let mut i: usize = 0;
        while i < errs.len()
            invariant
                0 <= i <= errs@.len(),
                errors@.len() == i,
                errors@.map_values(|e: FieldError| e@) =~= errs@.subrange(0, i as int).map_values(
                    |p: (&str, &str)| (p.0@, p.1@),
                ),
            decreases errs@.len() - i,
        {
            let (field, message) = errs[i];
            let ghost before = errors@;
            errors.push(FieldError { field: field.to_owned(), message: message.to_owned() });
            proof {
                let f = |p: (&str, &str)| (p.0@, p.1@);
                assert(errs@.subrange(0, i + 1) =~= errs@.subrange(0, i as int).push(errs@[i as int]));
                assert(errors@[i as int]@ == f(errs@[i as int]));
                assert forall|j: int| 0 <= j < i implies errors@[j]@ == f(errs@[j]) by {
                    assert(errors@[j] == before[j]);
                    assert(before.map_values(|e: FieldError| e@)[j] == errs@.subrange(0, i as int).map_values(f)[j]);
                }
                assert(errors@.map_values(|e: FieldError| e@) =~= errs@.subrange(0, i + 1).map_values(f));
            }
            i = i + 1;
        }
        assert(errs@.subrange(0, errs@.len() as int) =~= errs@);
        Errors { errors }
    }
}

/// Gathers the errors found while the fields of a request are read.
pub struct FieldValidator {
    errors: Vec<FieldError>,
}

impl View for FieldValidator {
    type V = Seq<(Seq<char>, Seq<char>)>;

    closed spec fn view(&self) -> Seq<(Seq<char>, Seq<char>)> {
        self.errors@.map_values(|e: FieldError| e@)
    }
}

impl Default for FieldValidator {
    fn default() -> (v: FieldValidator)
        ensures
            v@ == Seq::<(Seq<char>, Seq<char>)>::empty(),
    {
        let v = FieldValidator { errors: Vec::new() };
        assert(v@ =~= Seq::<(Seq<char>, Seq<char>)>::empty());
        v
    }
}

impl FieldValidator {
    /// The value of a required field: the value given, or, where it is
    /// missing, the empty string, with a "can't be blank" error recorded
    /// for the field.
    pub fn extract(&mut self, field_name: &str, field: Option<String>) -> (v: String)
        ensures
            match field {
                Some(s) => v == s && final(self)@ == old(self)@,
                None => v@ == Seq::<char>::empty() && final(self)@ == old(self)@.push(
                    (field_name@, blank_message()),
                ),
            },
    {
        match field {
            Some(s) => s,
            None => {
                let ghost before = self@;
                let message = "can't be blank".to_owned();
                self.errors.push(FieldError { field: field_name.to_owned(), message });
                proof {
                    reveal_strlit("can't be blank");
                    assert(self@ =~= before.push((field_name@, blank_message())));
                }
                String::new()
            },
        }
    }

    /// Succeeds where no error was recorded; otherwise fails with all the
    /// errors recorded, in order.
    pub fn check(self) -> (r: Result<(), Errors>)
        ensures
            r is Ok <==> self@.len() == 0,
            r matches Err(e) ==> e@ == self@,
    {
        if self.errors.len() == 0 {
            Ok(())
        } else {
            Err(Errors { errors: self.errors })
        }
    }
}

} // verus!
