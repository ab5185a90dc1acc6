# ternary_form

Musical form analysis for multi-agent task decomposition, verified with Verus.

A `Form` is a named sequence of `Section`s. The four forms (binary A-B,
ternary A-B-A', rondo A-B-A-C-A-..., sonata Exp/Dev/Recap) can be built,
recognised (`matches`), detected (`FormDetector`) and planned with agents
(`FormBuilder`).

Layout:

- `src/section.rs`: sections and their builders.
- `src/form.rs`: forms, the label pattern and the distinct labels.
- `src/forms.rs`: building and recognising each form.
- `src/detect.rs`: form detection and confidence.
- `src/builder.rs`: task plans with agents.
- `src/text.rs`: string equality, prefixes, joining and decimal rendering.
- `src/laws.rs`: properties of the library as a whole, proved.
- `app/lib.rs`: the floating-point side (weights as `f64`, total weight,
  confidence as a fraction).

The distinct labels of a form count a primed return such as `A'` as its
theme `A`, so a ternary form's distinct labels are `A` and `B`. A rondo
needs the theme `A` at every even position and nowhere else.

A weight is held as the bit pattern of an `f64` (`NORMAL_WEIGHT_BITS` is
1.0; sections compare weights as `f64` values), and a confidence in hundredths, so that the verified code never
computes with floating point.
