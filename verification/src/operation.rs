//! Classification of admission operations, and the fixed lookup table that
//! assigns each operation kind its metadata path and sentinel annotation key.

use vstd::prelude::*;

verus! {

/// The closed set of admission operations the policy understands.
#[derive(Clone, Copy, Debug, PartialEq, Eq, Structural)]
pub enum Operation {
    Create,
    Update,
    Delete,
    Connect,
}

impl Operation {
    /// The exact tag under which this kind appears in a request document.
    pub open spec fn spec_tag(self) -> Seq<char> {
        match self {
            Operation::Create => "CREATE"@,
            Operation::Update => "UPDATE"@,
            Operation::Delete => "DELETE"@,
            Operation::Connect => "CONNECT"@,
        }
    }

    /// Create and Connect decisions are made against the object as submitted;
    /// Update and Delete decisions against the object's state before the
    /// change.
    pub open spec fn uses_new_object(self) -> bool {
        match self {
            Operation::Create | Operation::Connect => true,
            Operation::Update | Operation::Delete => false,
        }
    }

    /// The fixed lookup path at which this kind's annotations live in a
    /// request document.
    pub open spec fn spec_annotation_path(self) -> Seq<char> {
        if self.uses_new_object() {
            "request.object.metadata.annotations"@
        } else {
            "request.oldObject.metadata.annotations"@
        }
    }

    /// The sentinel annotation key associated with this kind.
    pub open spec fn spec_annotation_key(self) -> Seq<char> {
        match self {
            Operation::Create => "io.kubewarden.policy.echo.create"@,
            Operation::Update => "io.kubewarden.policy.echo.update"@,
            Operation::Delete => "io.kubewarden.policy.echo.delete"@,
            Operation::Connect => "io.kubewarden.policy.echo.connect"@,
        }
    }

    /// The lookup path for this kind, as text the query engine takes.
    pub fn annotation_path(&self) -> (r: &'static str)
        ensures
            r@ == self.spec_annotation_path(),
    {
        match self {
            Operation::Create => "request.object.metadata.annotations",
            Operation::Update => "request.oldObject.metadata.annotations",
            Operation::Delete => "request.oldObject.metadata.annotations",
            Operation::Connect => "request.object.metadata.annotations",
        }
    }

    /// The sentinel annotation key for this kind.
    pub fn annotation_key(&self) -> (r: &'static str)
        ensures
            r@ == self.spec_annotation_key(),
    {
        match self {
            Operation::Create => "io.kubewarden.policy.echo.create",
            Operation::Update => "io.kubewarden.policy.echo.update",
            Operation::Delete => "io.kubewarden.policy.echo.delete",
            Operation::Connect => "io.kubewarden.policy.echo.connect",
        }
    }

    /// Maps a raw operation tag to its kind: exactly the four accepted tags
    /// classify, everything else does not.
    pub open spec fn spec_classify(tag: Seq<char>) -> Option<Operation> {
        if tag == "CREATE"@ {
            Some(Operation::Create)
        } else if tag == "UPDATE"@ {
            Some(Operation::Update)
        } else if tag == "DELETE"@ {
            Some(Operation::Delete)
        } else if tag == "CONNECT"@ {
            Some(Operation::Connect)
        } else {
            None
        }
    }

    /// Classifies a raw operation tag. Fails on every tag outside the closed
    /// set, returning the offending value.
    pub fn classify(tag: &String) -> (r: Result<Operation, String>)
        ensures
            match r {
                Ok(kind) => Self::spec_classify(tag@) == Some(kind),
                Err(s) => Self::spec_classify(tag@) is None && s@ == tag@,
            },
    {
        if *tag == String::from_str("CREATE") {
            Ok(Operation::Create)
        } else if *tag == String::from_str("UPDATE") {
            Ok(Operation::Update)
        } else if *tag == String::from_str("DELETE") {
            Ok(Operation::Delete)
        } else if *tag == String::from_str("CONNECT") {
            Ok(Operation::Connect)
        } else {
            Err(tag.clone())
        }
    }
}

/// Law: classification is total on the four accepted tags, and returns the
/// kind whose tag was given.
pub proof fn lemma_classify_total_on_tags(kind: Operation)
    ensures
        Operation::spec_classify(kind.spec_tag()) == Some(kind),
{
    reveal_strlit("CREATE");
    reveal_strlit("UPDATE");
    reveal_strlit("DELETE");
    reveal_strlit("CONNECT");
    match kind {
        Operation::Create => {},
        Operation::Update => {
            assert("UPDATE"@[0] != "CREATE"@[0]);
        },
        Operation::Delete => {
            assert("DELETE"@[0] != "CREATE"@[0]);
            assert("DELETE"@[0] != "UPDATE"@[0]);
        },
        Operation::Connect => {
            assert("CONNECT"@.len() != "CREATE"@.len());
            assert("CONNECT"@.len() != "UPDATE"@.len());
            assert("CONNECT"@.len() != "DELETE"@.len());
        },
    }
}

/// Law: classification fails on every tag that is not one of the four
/// accepted tags, and succeeds only with the kind whose tag was given.
pub proof fn lemma_classify_exact(tag: Seq<char>)
    ensures
        Operation::spec_classify(tag) is Some <==> (exists|kind: Operation| kind.spec_tag() == tag),
        forall|kind: Operation| Operation::spec_classify(tag) == Some(kind) ==> kind.spec_tag() == tag,
{
    if Operation::spec_classify(tag) is Some {
        let kind = Operation::spec_classify(tag)->Some_0;
        assert(kind.spec_tag() == tag);
    }
}

} // verus!
