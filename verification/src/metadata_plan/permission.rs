//! What a request may read and write.

use vstd::prelude::*;

use crate::engine::ddl::option_view;
use crate::metadata::field::{copy_option_string, field_output_name, field_source_column, FieldModel, FieldSourceModel};
use crate::metadata::query::RequestModel;
use crate::metadata::{MetadataId, MetadataQueryRequest};
use crate::text::{lemma_filter_empty, lemma_filter_take, lemma_map_push, owned, strings_view};

verus! {

/// Whether a field grants the capability at `mask_index`.
pub open spec fn field_allowed(f: FieldModel, mask_index: usize) -> bool {
    mask_index < f.access.len() && f.access[mask_index as int]
}

/// The fields granted at `mask_index`.
pub open spec fn allowed_by(mask_index: usize) -> spec_fn(FieldModel) -> bool {
    |f: FieldModel| field_allowed(f, mask_index)
}

/// The plain-column fields granted at `mask_index`.
pub open spec fn writable_by(mask_index: usize) -> spec_fn(FieldModel) -> bool {
    |f: FieldModel| field_allowed(f, mask_index) && f.source is Column
}

/// A field's output name.
pub open spec fn output_name_of() -> spec_fn(FieldModel) -> Seq<char> {
    |f: FieldModel| field_output_name(f)
}

/// A plain-column field's column.
pub open spec fn column_of() -> spec_fn(FieldModel) -> Seq<char> {
    |f: FieldModel| match f.source {
        FieldSourceModel::Column(c) => c,
        _ => Seq::empty(),
    }
}

/// Who asks, which mask position is checked, the row filter, and the fields that may
/// be read and written.
#[derive(Debug, Clone, PartialEq)]
pub struct PermissionPlan {
    pub user_id: MetadataId,
    pub mask_index: usize,
    pub row_filter: Option<String>,
    pub readable_fields: Vec<String>,
    pub writable_fields: Vec<String>,
}

/// The model of a [`PermissionPlan`].
pub struct PermissionModel {
    pub user_id: MetadataId,
    pub mask_index: usize,
    pub row_filter: Option<Seq<char>>,
    pub readable_fields: Seq<Seq<char>>,
    pub writable_fields: Seq<Seq<char>>,
}

impl View for PermissionPlan {
    type V = PermissionModel;

    open spec fn view(&self) -> PermissionModel {
        PermissionModel {
            user_id: self.user_id,
            mask_index: self.mask_index,
            row_filter: option_view(self.row_filter),
            readable_fields: strings_view(self.readable_fields@),
            writable_fields: strings_view(self.writable_fields@),
        }
    }
}

/// The permission plan of a request: the output names of the fields granted at the
/// request's mask position, and the columns of those among them that read a plain column.
pub open spec fn permission_of(r: RequestModel) -> PermissionModel {
    PermissionModel {
        user_id: r.user_id,
        mask_index: r.options.mask_index,
        row_filter: r.options.table_filter,
        readable_fields: r.fields.filter(allowed_by(r.options.mask_index)).map_values(output_name_of()),
        writable_fields: r.fields.filter(writable_by(r.options.mask_index)).map_values(column_of()),
    }
}

impl PermissionPlan {
    pub fn from_request(request: &MetadataQueryRequest) -> (r: PermissionPlan)
        ensures
            r@ == permission_of(request@),
    {
        let ghost fs = request@.fields;
        let k = request.options.mask_index;
        let mut readable: Vec<String> = Vec::new();
        let mut writable: Vec<String> = Vec::new();
        proof {
            lemma_filter_empty(fs.take(0), allowed_by(k));
            lemma_filter_empty(fs.take(0), writable_by(k));
            assert(strings_view(readable@) =~= fs.take(0).filter(allowed_by(k)).map_values(output_name_of()));
            assert(strings_view(writable@) =~= fs.take(0).filter(writable_by(k)).map_values(column_of()));
        }
        let n = request.fields.len();
        let mut i: usize = 0;
        while i < n
            invariant
                n == request.fields@.len(),
                fs == request@.fields,
                k == request.options.mask_index,
                i <= n,
                strings_view(readable@) == fs.take(i as int).filter(allowed_by(k)).map_values(output_name_of()),
                strings_view(writable@) == fs.take(i as int).filter(writable_by(k)).map_values(column_of()),
            decreases n - i,
        {
            let field = &request.fields[i];
            let ghost fm = fs[i as int];
            assert(fm == field@);
            proof {
                lemma_filter_take(fs, allowed_by(k), i as int);
                lemma_filter_take(fs, writable_by(k), i as int);
            }
            if field.access.allows(k) {
                let name = field.output_name();
                let ghost before = readable@;
                readable.push(name);
                proof {
                    lemma_map_push(fs.take(i as int).filter(allowed_by(k)), fm, output_name_of());
                    assert(strings_view(readable@) =~= strings_view(before).push(name@));
                }
                match field.source_column() {
                    Some(column) => {
                        let ghost before_w = writable@;
                        writable.push(owned(column));
                        proof {
                            lemma_map_push(fs.take(i as int).filter(writable_by(k)), fm, column_of());
                            assert(strings_view(writable@) =~= strings_view(before_w).push(column@));
                        }
                    },
                    None => {},
                }
            }
            i = i + 1;
        }
        proof {
            assert(fs.take(n as int) =~= fs);
        }
        PermissionPlan {
            user_id: request.user_id,
            mask_index: k,
            row_filter: copy_option_string(&request.options.table_filter),
            readable_fields: readable,
            writable_fields: writable,
        }
    }
}

} // verus!
