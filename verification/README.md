# template_builder

Builds template evaluation trees from parsed template expressions, such as

    separate(" ", author.name(), if(description, description.first_line(), "(no description)"))

A language says which keywords there are, which types of values it adds to the basic ones, and
which methods those have. The library does the rest: it resolves variables, keywords, functions and
methods, converts values to the types that are asked for, collects labels, and reports the first
error with the place it is about.

What comes out is a tree (`templater`) that a renderer walks. The library also has the functions
that a renderer applies to the values it meets on the way (`template_function`). Rendering itself,
and how times are written out, is up to the renderer.

## Layout

- `template_parser`: the syntax tree that goes in, and the errors
- `templater`: the evaluation tree that comes out
- `template_function`, `text_util`: the functions that trees apply to values
- `template_property`: properties of the basic types and how they convert, and expressions
- `template_language`: what a language implements
- `build_context`: the variables in scope
- `template_builder`: building
- `build_model`: what building gives, stated over models of the trees
- `evaluation`: what the value of a property is, which branch a condition chooses, what a list
  renders in turn, and where text is wrapped
- `scope`, `laws`: what holds of everything that is built

## Models

Every tree has a model: the same tree over mathematical strings and sequences. Every function of
`template_builder` returns the tree, or the error, whose model the matching function in
`build_model` gives.

A language states in the same way what its callbacks give. The library relies on it: the callbacks
have to be functions of their arguments. A language that hands methods to `build_core_method` is a
definition in terms of itself, so this guarantee is left to its author.

## What is taken on trust

`text_util` states what `str` equality, `str::contains`, `str::to_uppercase`, `str::to_lowercase`,
`char::is_whitespace` and `String::push` do. Of `pest::Span`, which nodes and errors carry, nothing
is assumed.
