use sv_loops::ast::{ForInitialization, ForStepAssignment, LoopStatement};
use sv_loops::lexer::{Span, Tok};
use sv_loops::looping::{
    for_initialization, for_step, for_variable_declaration, list_of_variable_assignments,
    loop_statement, loop_statement_do_while, loop_statement_for, loop_statement_foreach,
    loop_statement_forever, loop_statement_repeat, loop_statement_while, loop_variables,
};
use sv_loops::terms::{data_type, expression, identifier, statement_or_null, StatementOrNull};

fn text(s: &[u8], sp: Span) -> &str {
    std::str::from_utf8(&s[sp.start..sp.end]).unwrap()
}

#[test]
fn forever_with_null_body() {
    let s = b"forever ;";
    let (node, end) = loop_statement(s, 0).unwrap();
    assert_eq!(end, s.len());
    match node {
        LoopStatement::Forever(x) => assert_eq!(x.nodes.0, StatementOrNull::Null),
        other => panic!("unexpected {:?}", other),
    }
}

#[test]
fn for_with_assignment_initializer() {
    let s = b"for (i = 0; i < 10; i = i + 1) foo;";
    let (node, end) = loop_statement(s, 0).unwrap();
    assert_eq!(end, s.len());
    let x = match node {
        LoopStatement::For(x) => x,
        other => panic!("unexpected {:?}", other),
    };
    match x.nodes.0 {
        Some(ForInitialization::Assignment(v)) => {
            assert_eq!(v.len(), 1);
            assert_eq!(text(s, v[0].lvalue.span), "i");
            assert_eq!(text(s, v[0].expr.span), "0");
        }
        other => panic!("unexpected {:?}", other),
    }
    assert_eq!(text(s, x.nodes.1.unwrap().span), "i < 10");
    let steps = x.nodes.2.unwrap();
    assert_eq!(steps.len(), 1);
    match steps[0] {
        ForStepAssignment::Operator(a) => {
            assert_eq!(a.op, Tok::Assign);
            assert_eq!(text(s, a.lvalue.span), "i");
            assert_eq!(text(s, a.expr.span), "i + 1");
        }
        other => panic!("unexpected {:?}", other),
    }
    match x.nodes.3 {
        StatementOrNull::Statement(st) => assert_eq!(text(s, st.span), "foo;"),
        other => panic!("unexpected {:?}", other),
    }
}

#[test]
fn for_with_increment_as_initializer_fails() {
    assert!(loop_statement(b"for (i++; ;) ;", 0).is_none());
    assert!(for_initialization(b"i++", 0).is_none());
}

#[test]
fn for_with_declaration_initializer() {
    let s = b"for (int i = 0; i < 10; i++) ;";
    let (node, end) = loop_statement(s, 0).unwrap();
    assert_eq!(end, s.len());
    let x = match node {
        LoopStatement::For(x) => x,
        other => panic!("unexpected {:?}", other),
    };
    match x.nodes.0 {
        Some(ForInitialization::Declaration(v)) => {
            assert_eq!(v.len(), 1);
            assert!(v[0].nodes.0.is_none());
            assert_eq!(text(s, v[0].nodes.1.span), "int");
            assert_eq!(v[0].nodes.2.len(), 1);
            assert_eq!(text(s, v[0].nodes.2[0].0.span), "i");
            assert_eq!(text(s, v[0].nodes.2[0].1.span), "0");
        }
        other => panic!("unexpected {:?}", other),
    }
    let steps = x.nodes.2.unwrap();
    assert_eq!(steps.len(), 1);
    match steps[0] {
        ForStepAssignment::IncOrDec(d) => {
            assert_eq!(d.op, Tok::Incr);
            assert!(!d.prefix);
            assert_eq!(text(s, d.operand.span), "i");
        }
        other => panic!("unexpected {:?}", other),
    }
    assert_eq!(x.nodes.3, StatementOrNull::Null);
}

#[test]
fn foreach_keeps_empty_slots() {
    let s = b"foreach (arr[i, , j]) stmt;";
    let (node, end) = loop_statement(s, 0).unwrap();
    assert_eq!(end, s.len());
    let x = match node {
        LoopStatement::Foreach(x) => x,
        other => panic!("unexpected {:?}", other),
    };
    assert!(x.nodes.0.scope.is_none());
    assert_eq!(x.nodes.0.path.len(), 1);
    assert_eq!(text(s, x.nodes.0.path[0].span), "arr");
    let slots = &x.nodes.1.nodes.0;
    assert_eq!(slots.len(), 3);
    assert_eq!(text(s, slots[0].unwrap().span), "i");
    assert!(slots[1].is_none());
    assert_eq!(text(s, slots[2].unwrap().span), "j");
    assert_eq!(text(s, x.nodes.2.span), "stmt;");
}

#[test]
fn unterminated_while_fails() {
    assert!(loop_statement(b"while (x", 0).is_none());
    assert!(loop_statement_while(b"while (x", 0).is_none());
}

#[test]
fn typed_initializer_becomes_declaration() {
    let plain = b"i = 0, j = k + 1";
    let (init, end) = for_initialization(plain, 0).unwrap();
    assert_eq!(end, plain.len());
    let assigned: Vec<(String, String)> = match init {
        ForInitialization::Assignment(v) => v
            .iter()
            .map(|a| (text(plain, a.lvalue.span).to_string(), text(plain, a.expr.span).to_string()))
            .collect(),
        other => panic!("unexpected {:?}", other),
    };
    let typed = b"integer i = 0, j = k + 1";
    let (init, end) = for_initialization(typed, 0).unwrap();
    assert_eq!(end, typed.len());
    match init {
        ForInitialization::Declaration(v) => {
            assert_eq!(v.len(), 1);
            assert!(v[0].nodes.0.is_none());
            assert_eq!(text(typed, v[0].nodes.1.span), "integer");
            let declared: Vec<(String, String)> = v[0]
                .nodes
                .2
                .iter()
                .map(|(n, x)| (text(typed, n.span).to_string(), text(typed, x.span).to_string()))
                .collect();
            assert_eq!(declared, assigned);
        }
        other => panic!("unexpected {:?}", other),
    }
}

#[test]
fn match_ends_at_its_terminator() {
    let s = b"  repeat (3) x += 1;  rest";
    let (_, end) = loop_statement(s, 0).unwrap();
    assert_eq!(end, 20);
    assert_eq!(s[end - 1], b';');
    assert_eq!(&s[end..], b"  rest");
}

#[test]
fn failure_is_repeatable() {
    let s = b"if (x) y;";
    assert!(loop_statement(s, 0).is_none());
    assert!(loop_statement(s, 0).is_none());
    let t = b"forever foo;";
    let a = loop_statement(t, 0).unwrap();
    let b = loop_statement(t, 0).unwrap();
    assert_eq!(a.1, b.1);
}

#[test]
fn repeat_count_and_body() {
    let s = b"repeat (n * 2) ++k;";
    let (node, end) = loop_statement_repeat(s, 0).unwrap();
    assert_eq!(end, s.len());
    match node {
        LoopStatement::Repeat(x) => {
            assert_eq!(text(s, x.nodes.0.span), "n * 2");
            match x.nodes.1 {
                StatementOrNull::Statement(st) => assert_eq!(text(s, st.span), "++k;"),
                other => panic!("unexpected {:?}", other),
            }
        }
        other => panic!("unexpected {:?}", other),
    }
}

#[test]
fn do_while_needs_its_terminator() {
    let s = b"do x = x - 1; while (x > 0);";
    let (node, end) = loop_statement(s, 0).unwrap();
    assert_eq!(end, s.len());
    match node {
        LoopStatement::DoWhile(x) => assert_eq!(text(s, x.nodes.1.span), "x > 0"),
        other => panic!("unexpected {:?}", other),
    }
    assert!(loop_statement_do_while(b"do x = x - 1; while (x > 0)", 0).is_none());
    assert!(loop_statement(b"do ; while (x) ;", 0).is_some());
}

#[test]
fn for_with_all_clauses_empty() {
    let s = b"for (;;) ;";
    let (node, end) = loop_statement_for(s, 0).unwrap();
    assert_eq!(end, s.len());
    match node {
        LoopStatement::For(x) => {
            assert!(x.nodes.0.is_none());
            assert!(x.nodes.1.is_none());
            assert!(x.nodes.2.is_none());
            assert_eq!(x.nodes.3, StatementOrNull::Null);
        }
        other => panic!("unexpected {:?}", other),
    }
    assert!(loop_statement(b"for (;) ;", 0).is_none());
}

#[test]
fn foreach_body_cannot_be_null() {
    assert!(loop_statement(b"foreach (arr[i]) ;", 0).is_none());
    assert!(loop_statement_foreach(b"foreach (arr[i]) ;", 0).is_none());
}

#[test]
fn foreach_scoped_array_and_leading_empty_slot() {
    let s = b"foreach (pkg::mem[, k]) f();";
    let (node, _) = loop_statement(s, 0).unwrap();
    match node {
        LoopStatement::Foreach(x) => {
            assert_eq!(text(s, x.nodes.0.scope.unwrap().span), "pkg");
            assert_eq!(x.nodes.0.path.len(), 1);
            assert_eq!(text(s, x.nodes.0.path[0].span), "mem");
            let slots = &x.nodes.1.nodes.0;
            assert_eq!(slots.len(), 2);
            assert!(slots[0].is_none());
            assert_eq!(text(s, slots[1].unwrap().span), "k");
        }
        other => panic!("unexpected {:?}", other),
    }
}

#[test]
fn loop_variables_slots() {
    let s = b"a,,b,";
    let (v, end) = loop_variables(s, 0).unwrap();
    assert_eq!(end, 5);
    assert_eq!(v.nodes.0.len(), 4);
    assert!(v.nodes.0[1].is_none());
    assert!(v.nodes.0[3].is_none());
}

#[test]
fn declaration_with_var_and_several_lists() {
    let s = b"var bit a = 1, b = 2, logic c = 3";
    let (d, end) = for_variable_declaration(s, 0).unwrap();
    assert!(d.nodes.0.is_some());
    assert_eq!(d.nodes.2.len(), 2);
    assert_eq!(end, 20);
    let (init, end) = for_initialization(s, 0).unwrap();
    assert_eq!(end, s.len());
    match init {
        ForInitialization::Declaration(v) => {
            assert_eq!(v.len(), 2);
            assert_eq!(text(s, v[1].nodes.1.span), "logic");
            assert_eq!(text(s, v[1].nodes.2[0].0.span), "c");
        }
        other => panic!("unexpected {:?}", other),
    }
}

#[test]
fn step_list_kinds_in_order() {
    let s = b"i += 2, --j, tick(i)";
    let (v, end) = for_step(s, 0).unwrap();
    assert_eq!(end, s.len());
    assert_eq!(v.len(), 3);
    match v[0] {
        ForStepAssignment::Operator(a) => assert_eq!(a.op, Tok::AddAssign),
        other => panic!("unexpected {:?}", other),
    }
    match v[1] {
        ForStepAssignment::IncOrDec(d) => {
            assert_eq!(d.op, Tok::Decr);
            assert!(d.prefix);
        }
        other => panic!("unexpected {:?}", other),
    }
    match v[2] {
        ForStepAssignment::Subroutine(c) => {
            assert_eq!(text(s, c.name.span), "tick");
            assert_eq!(text(s, c.arg.unwrap().span), "i");
            assert_eq!(text(s, c.span), "tick(i)");
        }
        other => panic!("unexpected {:?}", other),
    }
}

#[test]
fn list_stops_before_a_dangling_comma() {
    let s = b"a = 1, b";
    let (v, end) = list_of_variable_assignments(s, 0).unwrap();
    assert_eq!(v.len(), 1);
    assert_eq!(end, 5);
}

#[test]
fn keywords_are_not_identifiers() {
    assert!(identifier(b"while", 0).is_none());
    assert!(identifier(b"int", 0).is_none());
    assert!(data_type(b"while", 0).is_none());
    let (id, end) = identifier(b"  interval", 0).unwrap();
    assert_eq!(id.span, Span { start: 2, end: 10 });
    assert_eq!(end, 10);
}

#[test]
fn keyword_must_be_a_whole_word() {
    assert!(loop_statement_forever(b"forevermore ;", 0).is_none());
    let s = b"foreach (a[i]) x++;";
    assert!(loop_statement_for(s, 0).is_none());
    assert!(loop_statement(s, 0).is_some());
}

#[test]
fn expression_spans_operators() {
    let s = b" a <= 10 + b ) ";
    let (x, end) = expression(s, 0).unwrap();
    assert_eq!(text(s, x.span), "a <= 10 + b");
    assert_eq!(end, 12);
}

#[test]
fn parse_from_the_middle() {
    let s = b"x; while (go) ;";
    let (node, end) = loop_statement(s, 2).unwrap();
    assert_eq!(end, s.len());
    assert!(matches!(node, LoopStatement::While(_)));
    assert!(statement_or_null(s, 0).is_some());
}


#[test]
fn foreach_hierarchical_array_name() {
    let s = b"foreach (top.arr[i]) foo;";
    let (node, end) = loop_statement(s, 0).unwrap();
    assert_eq!(end, s.len());
    match node {
        LoopStatement::Foreach(x) => {
            assert!(x.nodes.0.scope.is_none());
            let names: Vec<&str> = x.nodes.0.path.iter().map(|n| text(s, n.span)).collect();
            assert_eq!(names, vec!["top", "arr"]);
            assert_eq!(x.nodes.1.nodes.0.len(), 1);
            assert_eq!(text(s, x.nodes.1.nodes.0[0].unwrap().span), "i");
            assert_eq!(text(s, x.nodes.2.span), "foo;");
        }
        other => panic!("unexpected {:?}", other),
    }
}

#[test]
fn foreach_scoped_hierarchical_array_name() {
    let s = b"foreach (p::a.b.c[k]) go();";
    let (node, _) = loop_statement_foreach(s, 0).unwrap();
    match node {
        LoopStatement::Foreach(x) => {
            assert_eq!(text(s, x.nodes.0.scope.unwrap().span), "p");
            let names: Vec<&str> = x.nodes.0.path.iter().map(|n| text(s, n.span)).collect();
            assert_eq!(names, vec!["a", "b", "c"]);
        }
        other => panic!("unexpected {:?}", other),
    }
}

#[test]
fn declaration_with_named_type() {
    let s = b"vart i = 0";
    let (d, end) = for_variable_declaration(s, 0).unwrap();
    assert_eq!(end, s.len());
    assert!(d.nodes.0.is_none());
    assert_eq!(text(s, d.nodes.1.span), "vart");
    assert_eq!(d.nodes.2.len(), 1);
    assert_eq!(text(s, d.nodes.2[0].0.span), "i");
    assert_eq!(text(s, d.nodes.2[0].1.span), "0");
}

#[test]
fn for_with_named_type_declaration() {
    let s = b"for (my_t i = 0; i < n; i++) ;";
    let (node, end) = loop_statement(s, 0).unwrap();
    assert_eq!(end, s.len());
    match node {
        LoopStatement::For(x) => match x.nodes.0 {
            Some(ForInitialization::Declaration(v)) => {
                assert_eq!(text(s, v[0].nodes.1.span), "my_t");
                assert_eq!(text(s, v[0].nodes.2[0].0.span), "i");
            }
            other => panic!("unexpected {:?}", other),
        },
        other => panic!("unexpected {:?}", other),
    }
}

#[test]
fn bare_name_initializer_is_rejected() {
    assert!(for_initialization(b"i", 0).is_none());
    assert!(loop_statement(b"for (i; ;) ;", 0).is_none());
}

#[test]
fn loop_as_loop_body() {
    let s = b"while (a) while (b) ;";
    let (node, end) = loop_statement(s, 0).unwrap();
    assert_eq!(end, s.len());
    match node {
        LoopStatement::While(x) => match x.nodes.1 {
            StatementOrNull::Statement(st) => assert_eq!(text(s, st.span), "while (b) ;"),
            other => panic!("unexpected {:?}", other),
        },
        other => panic!("unexpected {:?}", other),
    }
    let t = b"forever for (;;) ;";
    let (_, end) = loop_statement(t, 0).unwrap();
    assert_eq!(end, t.len());
    let u = b"foreach (m[i]) foreach (n[j]) do k++; while (k < 3);";
    let (_, end) = loop_statement(u, 0).unwrap();
    assert_eq!(end, u.len());
}
