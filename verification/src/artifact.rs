//! What a service and a client share: the characteristics that the fields of
//! a declaration stand for.

use vstd::prelude::*;
use vstd::string::*;
use crate::property_list::{parse_characteristic, ArgsModel, CharacteristicArgs};
use crate::error::{ErrorModel, SchemaError};
use crate::naming::{pascal_case, to_pascal_case, with_suffix};
use crate::schema::{FieldDecl, FieldModel, FieldType, FieldTypeModel};

verus! {

/// One characteristic of a service or a client, ready for generation.
#[derive(Debug)]
pub struct CharacteristicArtifact {
    /// The position, in the declaration, of the field that declares it.
    pub field: usize,
    /// The name of that field.
    pub name: String,
    /// That name in PascalCase, from which its event variants are named.
    pub pascal: String,
    /// The type of its value.
    pub ty: FieldType,
    pub args: CharacteristicArgs,
}

/// A characteristic as a value.
pub struct CharacteristicModel {
    pub field: usize,
    pub name: Seq<char>,
    pub pascal: Seq<char>,
    pub ty: FieldTypeModel,
    pub args: ArgsModel,
}

impl View for CharacteristicArtifact {
    type V = CharacteristicModel;

    open spec fn view(&self) -> CharacteristicModel {
        CharacteristicModel {
            field: self.field,
            name: self.name@,
            pascal: self.pascal@,
            ty: self.ty@,
            args: self.args@,
        }
    }
}

impl DeepView for CharacteristicArtifact {
    type V = CharacteristicModel;

    open spec fn deep_view(&self) -> CharacteristicModel {
        self@
    }
}

/// The characteristic that the field at `position` stands for, with the
/// properties that its list declares.
pub open spec fn characteristic_of(position: usize, field: FieldModel, args: ArgsModel) -> CharacteristicModel {
    CharacteristicModel {
        field: position,
        name: field.name,
        pascal: pascal_case(field.name),
        ty: field.ty,
        args,
    }
}

/// What the first fields of a declaration come to.
pub struct Collected {
    /// The characteristics, in the order of their fields.
    pub characteristics: Seq<CharacteristicModel>,
    /// The positions of the fields that are no characteristics, and stay.
    pub retained: Seq<usize>,
    /// The fault of the last property list that could not be read.
    pub error: Option<ErrorModel>,
}

/// What the first `upto` fields come to. A field with a property list is a
/// characteristic and leaves the declaration; a field without one stays. A
/// list that cannot be read drops its field and leaves its fault, and the
/// fields after it are still read.
pub open spec fn collect(fields: Seq<FieldModel>, upto: int) -> Collected
    decreases upto,
{
    if upto <= 0 {
        Collected { characteristics: Seq::empty(), retained: Seq::empty(), error: None }
    } else {
        let before = collect(fields, upto - 1);
        let field = fields[upto - 1];
        match field.characteristic {
            None => Collected { retained: before.retained.push((upto - 1) as usize), ..before },
            Some(toks) => match parse_characteristic(toks) {
                Ok(args) => Collected {
                    characteristics: before.characteristics.push(
                        characteristic_of((upto - 1) as usize, field, args),
                    ),
                    ..before
                },
                Err(e) => Collected { error: Some(e), ..before },
            },
        }
    }
}

/// Whether no two characteristics share a name.
pub open spec fn names_unique(characteristics: Seq<CharacteristicModel>) -> bool {
    forall|i: int, j: int|
        0 <= i < j < characteristics.len() ==> (#[trigger] characteristics[i]).name != (
        #[trigger] characteristics[j]).name
}

/// The characteristics of a declaration with sound property lists and no
/// name used twice, with the fields that stay; else the fault.
pub open spec fn characteristics_of(fields: Seq<FieldModel>) -> Result<
    (Seq<CharacteristicModel>, Seq<usize>),
    ErrorModel,
> {
    let all = collect(fields, fields.len() as int);
    match all.error {
        Some(e) => Err(e),
        None => if names_unique(all.characteristics) {
            Ok((all.characteristics, all.retained))
        } else {
            Err(ErrorModel::DuplicateCharacteristic)
        },
    }
}

fn unique(characteristics: &Vec<CharacteristicArtifact>) -> (r: bool)
    ensures
        r == names_unique(characteristics.deep_view()),
{
    let ghost models = characteristics.deep_view();
    let mut j: usize = 0;
    while j < characteristics.len()
        invariant
            j <= characteristics.len(),
            models == characteristics.deep_view(),
            forall|a: int, b: int|
                0 <= a < b < j ==> (#[trigger] models[a]).name != (#[trigger] models[b]).name,
        decreases characteristics.len() - j,
    {
        let mut i: usize = 0;
        while i < j
            invariant
                i <= j,
                j < characteristics.len(),
                models == characteristics.deep_view(),
                forall|a: int| 0 <= a < i ==> (#[trigger] models[a]).name != models[j as int].name,
            decreases j - i,
        {
            if characteristics[i].name == characteristics[j].name {
                assert(models[i as int].name == models[j as int].name);
                return false;
            }
            i = i + 1;
        }
        j = j + 1;
    }
    true
}

/// Reads the characteristics out of the fields of a declaration.
pub(crate) fn characteristics(fields: &Vec<FieldDecl>) -> (r: Result<
    (Vec<CharacteristicArtifact>, Vec<usize>),
    SchemaError,
>)
    ensures
        match r {
            Ok((found, retained)) => characteristics_of(fields.deep_view()) == Ok::<
                (Seq<CharacteristicModel>, Seq<usize>),
                ErrorModel,
            >((found.deep_view(), retained@)),
            Err(e) => characteristics_of(fields.deep_view()) == Err::<
                (Seq<CharacteristicModel>, Seq<usize>),
                ErrorModel>(e@),
        },
{
    let ghost models = fields.deep_view();
    let mut found: Vec<CharacteristicArtifact> = Vec::new();
    let mut retained: Vec<usize> = Vec::new();
    let mut error: Option<SchemaError> = None;
    let mut i: usize = 0;
    while i < fields.len()
        invariant
            i <= fields.len(),
            models == fields.deep_view(),
            found.deep_view() == collect(models, i as int).characteristics,
            retained@ == collect(models, i as int).retained,
            collect(models, i as int).error == (match error {
                Some(e) => Some(e@),
                None => None,
            }),
        decreases fields.len() - i,
    {
        let field = &fields[i];
        match &field.characteristic {
            None => {
                retained.push(i);
            },
            Some(tokens) => match CharacteristicArgs::parse(tokens.as_slice()) {
                Ok(args) => {
                    let artifact = CharacteristicArtifact {
                        field: i,
                        name: field.name.clone(),
                        pascal: to_pascal_case(field.name.as_str()),
                        ty: field.ty.duplicate(),
                        args,
                    };
                    found.push(artifact);
                },
                Err(e) => {
                    error = Some(e);
                },
            },
        }
        i = i + 1;
    }
    match error {
        Some(e) => Err(e),
        None => if unique(&found) {
            Ok((found, retained))
        } else {
            Err(SchemaError::DuplicateCharacteristic)
        },
    }
}

impl CharacteristicArtifact {
    /// The name of the field that holds the handle of the value.
    pub fn value_handle_field(&self) -> (r: String)
        ensures
            r@ == self@.name + "_value_handle"@,
    {
        with_suffix(self.name.as_str(), "_value_handle")
    }

    /// The name of the field that holds the handle of the configuration
    /// descriptor. Only a characteristic that notifies or indicates has one.
    pub fn cccd_handle_field(&self) -> (r: Option<String>)
        ensures
            match r {
                Some(name) => self@.args.props.spec_subscribable() && name@ == self@.name
                    + "_cccd_handle"@,
                None => !self@.args.props.spec_subscribable(),
            },
    {
        if self.args.props.subscribable() {
            Some(with_suffix(self.name.as_str(), "_cccd_handle"))
        } else {
            None
        }
    }
}

/// A property list that cannot be read: where, and why.
#[derive(Clone, Debug, PartialEq, Eq)]
pub struct Fault {
    /// The position, in the declaration, of the field with the list.
    pub field: usize,
    pub error: SchemaError,
}

/// A fault as a value.
pub struct FaultModel {
    pub field: usize,
    pub error: ErrorModel,
}

impl View for Fault {
    type V = FaultModel;

    open spec fn view(&self) -> FaultModel {
        FaultModel { field: self.field, error: self.error@ }
    }
}

impl DeepView for Fault {
    type V = FaultModel;

    open spec fn deep_view(&self) -> FaultModel {
        self@
    }
}

/// The faults of the property lists of the first `upto` fields, in the
/// order of the fields.
pub open spec fn faults_of(fields: Seq<FieldModel>, upto: int) -> Seq<FaultModel>
    decreases upto,
{
    if upto <= 0 {
        Seq::empty()
    } else {
        let before = faults_of(fields, upto - 1);
        match fields[upto - 1].characteristic {
            Some(toks) => match parse_characteristic(toks) {
                Err(error) => before.push(FaultModel { field: (upto - 1) as usize, error }),
                Ok(_) => before,
            },
            None => before,
        }
    }
}

/// Every property list of a declaration that cannot be read, so that all of
/// them can be reported at once.
pub fn faults(fields: &Vec<FieldDecl>) -> (r: Vec<Fault>)
    ensures
        r.deep_view() == faults_of(fields.deep_view(), fields.len() as int),
{
    let ghost models = fields.deep_view();
    let mut out: Vec<Fault> = Vec::new();
    let mut i: usize = 0;
    while i < fields.len()
        invariant
            i <= fields.len(),
            models == fields.deep_view(),
            out.deep_view() == faults_of(models, i as int),
        decreases fields.len() - i,
    {
        if let Some(tokens) = &fields[i].characteristic {
            if let Err(error) = CharacteristicArgs::parse(tokens.as_slice()) {
                let ghost before = out.deep_view();
                let fault = Fault { field: i, error };
                out.push(fault);
                assert(out.deep_view() =~= before.push(fault@));
            }
        }
        i = i + 1;
    }
    out
}

/// The fault that reading the characteristics reports is the last of the
/// faults of the property lists; where no list is at fault, none is
/// reported.
pub proof fn lemma_last_fault(fields: Seq<FieldModel>, upto: int)
    ensures
        collect(fields, upto).error == (if faults_of(fields, upto).len() > 0 {
            Some(faults_of(fields, upto).last().error)
        } else {
            None
        }),
    decreases upto,
{
    if upto > 0 {
        lemma_last_fault(fields, upto - 1);
    }
}

/// Each characteristic stands for the field at its position: it has the
/// name and the type of that field, and the properties of its list.
pub proof fn lemma_characteristic_fields(fields: Seq<FieldModel>, upto: int, k: int)
    requires
        0 <= upto <= fields.len() <= usize::MAX,
        0 <= k < collect(fields, upto).characteristics.len(),
    ensures
        ({
            let c = collect(fields, upto).characteristics[k];
            &&& c.field < upto
            &&& fields[c.field as int].characteristic matches Some(toks)
            &&& parse_characteristic(toks) == Ok::<ArgsModel, ErrorModel>(c.args)
            &&& c == characteristic_of(c.field, fields[c.field as int], c.args)
        }),
    decreases upto,
{
    if upto > 0 {
        let before = collect(fields, upto - 1);
        if k < before.characteristics.len() {
            lemma_characteristic_fields(fields, upto - 1, k);
        }
    }
}

} // verus!
