//! Importing React for code that uses JSX without importing it.
use vstd::prelude::*;

use crate::text::{contains_seq, str_contains};
use crate::types::{flag, flag_exec, TransformConfig};
use crate::web_transform::ast::{
    items_view, specifiers_view, Ident, IdentV, ImportDecl, ImportDeclV, ImportSpecifier, ItemV,
    ModuleItems, ModuleItem, SpecifierV,
};

verus! {

/// `import React from "react"`.
pub open spec fn react_import() -> ItemV {
    ItemV::Import(
        ImportDeclV {
            src: "react"@,
            specifiers: seq![SpecifierV::Default { local: IdentV { sym: "React"@, ctxt: 0 } }],
            type_only: false,
            origin: None,
        },
    )
}

/// With the React runtime asked for, a module whose source holds neither
/// `import React from "react"` nor `import React from 'react'` gets
/// `import React from "react"` as its first item; otherwise it is left as it is.
pub open spec fn prefix_react_spec(items: Seq<ItemV>, config: TransformConfig, origin: Seq<char>) -> Seq<
    ItemV,
> {
    if flag(config.react_runtime, false) && !contains_seq(origin, "import React from \"react\""@)
        && !contains_seq(origin, "import React from 'react'"@) {
        seq![react_import()] + items
    } else {
        items
    }
}

/// Puts `import React from "react"` in front of a module whose source
/// `origin_code` does not import React, when the React runtime is asked for.
pub fn transform_perfixreact(
    module: &mut ModuleItems,
    project_config: &TransformConfig,
    origin_code: &str,
)
    ensures
        final(module)@ == prefix_react_spec(old(module)@, *project_config, origin_code@),
{
    if flag_exec(project_config.react_runtime, false) {
        if str_contains(origin_code, "import React from \"react\"") || str_contains(
            origin_code,
            "import React from 'react'",
        ) {
            return;
        }
        let mut specifiers: Vec<ImportSpecifier> = Vec::new();
        specifiers.push(
            ImportSpecifier::Default { local: Ident { sym: String::from_str("React"), ctxt: 0 } },
        );
        let dec = ModuleItem::Import(
            ImportDecl { src: String::from_str("react"), specifiers, type_only: false, origin: None },
        );
        assert(dec@ == react_import()) by {
            assert(specifiers_view(specifiers@) =~= seq![
                SpecifierV::Default { local: IdentV { sym: "React"@, ctxt: 0 } },
            ]);
        }
        let ghost before = module.body@;
        module.body.insert(0, dec);
        assert(items_view(module.body@) =~= seq![react_import()] + items_view(before));
    }
}

/// With the React runtime asked for, the React import is added exactly when
/// the source holds neither `import React from "react"` nor
/// `import React from 'react'`: a source that imports only other names from
/// "react" gets it. The added import is `import React from "react"`, made by
/// the transform, in front of the module's items.
pub proof fn lemma_react_import_added(items: Seq<ItemV>, config: TransformConfig, origin: Seq<char>)
    requires
        config.react_runtime == Some(true),
    ensures
        !contains_seq(origin, "import React from \"react\""@) && !contains_seq(
            origin,
            "import React from 'react'"@,
        ) ==> {
            let r = prefix_react_spec(items, config, origin);
            &&& r.len() == items.len() + 1
            &&& r[0] == ItemV::Import(
                ImportDeclV {
                    src: "react"@,
                    specifiers: seq![SpecifierV::Default { local: IdentV { sym: "React"@, ctxt: 0 } }],
                    type_only: false,
                    origin: None,
                },
            )
            &&& r.drop_first() == items
        },
        contains_seq(origin, "import React from \"react\""@) || contains_seq(
            origin,
            "import React from 'react'"@,
        ) ==> prefix_react_spec(items, config, origin) == items,
{
    let r = prefix_react_spec(items, config, origin);
    if !contains_seq(origin, "import React from \"react\""@) && !contains_seq(
        origin,
        "import React from 'react'"@,
    ) {
        assert(r.drop_first() =~= items);
    }
}

/// Without the React runtime asked for, the module is left as it is.
pub proof fn lemma_no_runtime_unchanged(items: Seq<ItemV>, config: TransformConfig, origin: Seq<char>)
    requires
        !(config.react_runtime == Some(true)),
    ensures
        prefix_react_spec(items, config, origin) == items,
{
}

} // verus!
